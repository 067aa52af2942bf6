use conlang::phone::{
    parse_all, Consonant, Frontness, Height, Inventory, Manner, NonPulmonicConsonant, ParseError,
    Phoneme, Place, Syllable, Vowel,
};
use std::collections::BTreeSet;
use std::str::FromStr;

#[test]
fn consonants_parsing() {
    for orig in Consonant::all() {
        let code = orig.code();
        let parsed = Consonant::from_str(&format!("{code}")).unwrap();
        assert_eq!(orig, parsed);
    }
}

#[test]
fn vowels_parsing() {
    for orig in Vowel::all() {
        let code = orig.code();
        let parsed = Vowel::from_str(&format!("{code}")).unwrap();
        assert_eq!(orig, parsed);
    }
}

#[test]
fn non_pulmonics_parsing() {
    for orig in NonPulmonicConsonant::all() {
        let code = orig.code();
        let parsed = NonPulmonicConsonant::from_str(&format!("{code}")).unwrap();
        assert_eq!(orig, parsed);
    }
}

#[test]
fn unique() {
    let vec: Vec<_> = Consonant::all()
        .iter()
        .map(Consonant::code)
        .chain(Vowel::all().iter().map(Vowel::code))
        .collect();
    let set: BTreeSet<_> = vec.iter().collect();

    // No code is shared between phoneme families.
    assert_eq!(vec.len(), set.len());
}

#[test]
fn unique_across_all_three_families() {
    let vec: Vec<char> = Consonant::all()
        .iter()
        .map(Consonant::code)
        .chain(Vowel::all().iter().map(Vowel::code))
        .chain(NonPulmonicConsonant::all().iter().map(NonPulmonicConsonant::code))
        .collect();
    let set: BTreeSet<char> = vec.iter().copied().collect();
    assert_eq!(vec.len(), 97);
    assert_eq!(set.len(), vec.len());
}

#[test]
fn catalog_sizes_and_order() {
    let cs = Consonant::all();
    assert_eq!(cs.len(), 59);
    assert_eq!(cs[0], Consonant::P);
    assert_eq!(cs[58], Consonant::LCap);
    let vs = Vowel::all();
    assert_eq!(vs.len(), 28);
    assert_eq!(vs[0], Vowel::I);
    assert_eq!(vs[27], Vowel::AScriptFlip);
    let ns = NonPulmonicConsonant::all();
    assert_eq!(ns.len(), 10);
    assert_eq!(ns[0], NonPulmonicConsonant::BilabialClick);
}

#[test]
fn single_symbol_errors() {
    assert_eq!(Consonant::from_str(""), Err(ParseError::NoInput));
    assert_eq!(Consonant::from_str("pb"), Err(ParseError::TooManyCharacters));
    assert_eq!(Consonant::from_str("a"), Err(ParseError::UnknownCharacter('a')));
    assert_eq!(Vowel::from_str("p"), Err(ParseError::UnknownCharacter('p')));
    assert_eq!(Vowel::from_str("ae"), Err(ParseError::TooManyCharacters));
    assert_eq!(NonPulmonicConsonant::from_str(""), Err(ParseError::NoInput));
    assert_eq!(NonPulmonicConsonant::from_str("ɓ"), Ok(NonPulmonicConsonant::BilabialImplosive));
    assert_eq!(Consonant::from_str("ŋ"), Ok(Consonant::NVelar));
}

#[test]
fn try_from_char() {
    assert_eq!(Consonant::try_from('ʃ'), Ok(Consonant::Esh));
    assert_eq!(Vowel::try_from('ə'), Ok(Vowel::Schwa));
    assert_eq!(Phoneme::try_from('ʘ'), Ok(Phoneme::NonPulmonicConsonant(NonPulmonicConsonant::BilabialClick)));
    assert_eq!(Phoneme::try_from('a'), Ok(Phoneme::Vowel(Vowel::A)));
    assert_eq!(Phoneme::try_from('k'), Ok(Phoneme::Consonant(Consonant::K)));
    assert_eq!(Phoneme::try_from('!'), Err(ParseError::UnknownCharacter('!')));
    assert_eq!(Place::try_from('B'), Ok(Place::Bilabial));
    assert_eq!(Manner::try_from('L'), Ok(Manner::LateralApproximant));
    assert_eq!(Place::try_from('p'), Err(ParseError::UnknownCharacter('p')));
    assert_eq!(Manner::try_from('C'), Err(ParseError::UnknownCharacter('C')));
}

#[test]
fn place_and_manner_letters_are_disjoint() {
    let places = [
        Place::Bilabial,
        Place::Labiodental,
        Place::Dental,
        Place::Alveolar,
        Place::PostAlveolar,
        Place::Retroflex,
        Place::Palatal,
        Place::Velar,
        Place::Uvular,
        Place::Pharyngeal,
        Place::Glottal,
    ];
    let manners = [
        Manner::Plosive,
        Manner::Nasal,
        Manner::Trill,
        Manner::Tap,
        Manner::Fricative,
        Manner::LateralFricative,
        Manner::Approximant,
        Manner::LateralApproximant,
    ];
    let mut letters = BTreeSet::new();
    for p in places {
        assert_eq!(Place::from_letter(p.letter()), Ok(p));
        assert!(Manner::from_letter(p.letter()).is_err());
        letters.insert(p.letter());
    }
    for m in manners {
        assert_eq!(Manner::from_letter(m.letter()), Ok(m));
        assert!(Place::from_letter(m.letter()).is_err());
        letters.insert(m.letter());
    }
    assert_eq!(letters.len(), 19);
    assert!(!letters.contains(&'C'));
    assert!(!letters.contains(&'V'));
}

#[test]
fn consonant_attributes() {
    assert_eq!(Consonant::P.place(), Place::Bilabial);
    assert_eq!(Consonant::P.manner(), Manner::Plosive);
    assert_eq!(Consonant::Esh.place(), Place::PostAlveolar);
    assert_eq!(Consonant::Lezh.manner(), Manner::LateralFricative);
    assert_eq!(Consonant::HBar.place(), Place::Pharyngeal);
    assert_eq!(Consonant::RTap.manner(), Manner::Tap);
}

#[test]
fn vowel_height_and_frontness() {
    assert_eq!(Vowel::I.height().value(), 9);
    assert_eq!(Vowel::I.frontness().value(), 9);
    assert_eq!(Vowel::Schwa.height().value(), 5);
    assert_eq!(Vowel::A.height().value(), 1);
    assert_eq!(Vowel::A.frontness().value(), 6);
    assert_eq!(Vowel::AFlip.frontness().value(), 3);
    assert_eq!(Height::new(4).value(), 4);
    assert_eq!(Frontness::new(2).value(), 2);
    for v in Vowel::all() {
        assert!((1..=9).contains(&v.height().value()));
        assert!((1..=9).contains(&v.frontness().value()));
    }
}

#[test]
fn phoneme_codes() {
    assert_eq!(Phoneme::Consonant(Consonant::Theta).code(), 'θ');
    assert_eq!(Phoneme::Vowel(Vowel::Oe).code(), 'œ');
    assert_eq!(Phoneme::NonPulmonicConsonant(NonPulmonicConsonant::Uvular).code(), 'ʛ');
}

#[test]
fn syllable_from_str_and_render() {
    let s = Syllable::from_str("pa").unwrap();
    assert_eq!(
        s.parts(),
        &[Phoneme::Consonant(Consonant::P), Phoneme::Vowel(Vowel::A)][..]
    );
    assert_eq!(s.render(), "pa");
    let t = Syllable::new(&[Phoneme::Consonant(Consonant::P), Phoneme::Vowel(Vowel::A)]);
    assert_eq!(s, t);
    let u = Syllable::new(&[Phoneme::Vowel(Vowel::A), Phoneme::Consonant(Consonant::P)]);
    assert_ne!(s, u);
    assert_ne!(s, Syllable::new(&[Phoneme::Consonant(Consonant::P)]));
    assert_eq!(Syllable::from_str("pXaY"), Err(ParseError::UnknownCharacter('X')));
    assert_eq!(Syllable::from_str("").unwrap().parts().len(), 0);
    let long = Syllable::from_str("ʘapatakasamanaɗ").unwrap();
    assert_eq!(long.parts().len(), 15);
    assert_eq!(long.render(), "ʘapatakasamanaɗ");
}

#[test]
fn inventory_accessors_and_render() {
    let inv = Inventory::new(
        vec![Consonant::P, Consonant::T],
        vec![Vowel::A, Vowel::I],
        vec![NonPulmonicConsonant::Velar],
    );
    assert_eq!(inv.consonants(), &[Consonant::P, Consonant::T][..]);
    assert_eq!(inv.vowels(), &[Vowel::A, Vowel::I][..]);
    assert_eq!(inv.non_pulmonic_consonants(), &[NonPulmonicConsonant::Velar][..]);
    assert_eq!(inv.render(), "pt ai");
    let dup = Inventory::new(vec![Consonant::P, Consonant::P], vec![], vec![]);
    assert_eq!(dup.consonants().len(), 2);
    assert_eq!(dup.render(), "pp ");
    let all = Inventory::with_everything();
    assert_eq!(all.consonants().len(), 59);
    assert_eq!(all.vowels().len(), 28);
    assert_eq!(all.non_pulmonic_consonants().len(), 10);
}

#[test]
fn error_messages() {
    assert_eq!(ParseError::NoInput.message(), "no input");
    assert_eq!(ParseError::TooManyCharacters.message(), "too many characters in input");
    assert_eq!(ParseError::UnknownCharacter('x').message(), "unknown character 'x'");
}

#[test]
fn parse_all_collects_every_unknown() {
    let ok: Vec<Consonant> = parse_all("ptk").unwrap();
    assert_eq!(ok, vec![Consonant::P, Consonant::T, Consonant::K]);
    let err = parse_all::<Vowel>("aXiY").unwrap_err();
    assert_eq!(err, vec!['X', 'Y']);
    let one = parse_all::<NonPulmonicConsonant>("ʘa").unwrap_err();
    assert_eq!(one, vec!['a']);
    let empty: Vec<Consonant> = parse_all("").unwrap();
    assert!(empty.is_empty());
}

#[test]
fn all_simple_syllables_in_order() {
    let inv = Inventory::new(vec![Consonant::P], vec![Vowel::A, Vowel::I], vec![]);
    let all: Vec<String> = conlang::phone::generate_all_syllables(&inv)
        .iter()
        .map(|s| s.render())
        .collect();
    assert_eq!(all, vec!["a", "i", "ai", "ia", "pa", "pi"]);
}

#[test]
fn all_simple_syllables_skip_repeated_vowels() {
    let inv = Inventory::new(vec![Consonant::P], vec![Vowel::A, Vowel::A], vec![]);
    let all: Vec<String> = conlang::phone::generate_all_syllables(&inv)
        .iter()
        .map(|s| s.render())
        .collect();
    assert_eq!(all, vec!["a", "a", "pa", "pa"]);
    let empty = Inventory::new(vec![Consonant::P], vec![], vec![]);
    assert!(conlang::phone::generate_all_syllables(&empty).is_empty());
}

#[test]
fn all_simple_syllables_count_for_full_catalog() {
    let inv = Inventory::with_everything();
    let n = conlang::phone::generate_all_syllables(&inv).len();
    assert_eq!(n, 28 + 28 * 27 + 59 * 28);
}
