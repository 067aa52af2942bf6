use conlang::gen::{ParseError, PhonemeGenerator, WordGenerator};
use conlang::phone::{Consonant, Inventory, NonPulmonicConsonant, Phoneme, Vowel};
use rand::rngs::StdRng;
use rand::SeedableRng;

fn shape(w: &WordGenerator) -> Vec<usize> {
    w.syllables().iter().map(|s| s.slots().len()).collect()
}

#[test]
fn parsing() {
    let inputs = &["C", "V", "CV", "VVC"];
    let inventory = Inventory::with_everything();
    for input in inputs.iter() {
        WordGenerator::parse(input, &inventory).unwrap();
    }
}

#[test]
fn consonant_vowel_patterns_have_one_slot_per_character() {
    let inventory = Inventory::with_everything();
    assert_eq!(shape(&WordGenerator::parse("C", &inventory).unwrap()), vec![1]);
    assert_eq!(shape(&WordGenerator::parse("VVC", &inventory).unwrap()), vec![3]);
    assert_eq!(shape(&WordGenerator::parse("CV VC C", &inventory).unwrap()), vec![2, 2, 1]);
    assert_eq!(shape(&WordGenerator::parse("  CV\t\tVCC \n", &inventory).unwrap()), vec![2, 3]);
    let w = WordGenerator::parse("CV", &inventory).unwrap();
    let slots = w.syllables()[0].slots();
    assert_eq!(slots[0].glyph(), 'C');
    assert_eq!(slots[0].candidates().len(), 59);
    assert_eq!(slots[1].glyph(), 'V');
    assert_eq!(slots[1].candidates().len(), 28);
    assert_eq!(slots[1].candidates()[0], Phoneme::Vowel(Vowel::I));
}

#[test]
fn empty_or_blank_pattern_is_no_input() {
    let inventory = Inventory::with_everything();
    assert_eq!(WordGenerator::parse("", &inventory).err(), Some(ParseError::NoInput));
    assert_eq!(WordGenerator::parse("   ", &inventory).err(), Some(ParseError::NoInput));
    assert_eq!(WordGenerator::parse(" \t\r\n ", &inventory).err(), Some(ParseError::NoInput));
}

#[test]
fn unknown_character_is_named() {
    let inventory = Inventory::with_everything();
    assert_eq!(
        WordGenerator::parse("CxV", &inventory).err(),
        Some(ParseError::UnknownCharacter('x'))
    );
    assert_eq!(
        WordGenerator::parse("CV V1 C", &inventory).err(),
        Some(ParseError::UnknownCharacter('1'))
    );
    assert_eq!(
        WordGenerator::parse("VEX", &inventory).err(),
        Some(ParseError::UnknownCharacter('E'))
    );
    assert_eq!(
        WordGenerator::parse("Cé", &inventory).err(),
        Some(ParseError::UnknownCharacter('é'))
    );
}

#[test]
fn reserved_groups_are_unsupported() {
    let inventory = Inventory::with_everything();
    assert_eq!(
        WordGenerator::parse("C[V]", &inventory).err(),
        Some(ParseError::Unsupported('['))
    );
    assert_eq!(
        WordGenerator::parse("(C)V", &inventory).err(),
        Some(ParseError::Unsupported('('))
    );
}

#[test]
fn empty_selection_fails_at_parse_time() {
    let no_vowels = Inventory::new(vec![Consonant::P, Consonant::T], vec![], vec![]);
    assert_eq!(
        WordGenerator::parse("CV", &no_vowels).err(),
        Some(ParseError::NoCandidates('V'))
    );
    // 'Q' names the uvular place: none of p, t is uvular.
    assert_eq!(
        WordGenerator::parse("CQ", &no_vowels).err(),
        Some(ParseError::NoCandidates('Q'))
    );
    assert!(WordGenerator::parse("C", &no_vowels).is_ok());
}

#[test]
fn render_reproduces_pattern() {
    let inventory = Inventory::with_everything();
    let w = WordGenerator::parse("CV  VC\tC", &inventory).unwrap();
    assert_eq!(w.render(), "CV VC C");
    let w = WordGenerator::parse("  BVN ", &inventory).unwrap();
    assert_eq!(w.render(), "BVN");
    assert_eq!(w.syllables()[0].render(), "BVN");
}

#[test]
fn bilabial_slot_candidates() {
    let inventory = Inventory::with_everything();
    let g = PhonemeGenerator::parse('B', &inventory).unwrap();
    assert_eq!(
        g.candidates(),
        &[
            Phoneme::Consonant(Consonant::P),
            Phoneme::Consonant(Consonant::B),
            Phoneme::Consonant(Consonant::M),
            Phoneme::Consonant(Consonant::BCap),
            Phoneme::Consonant(Consonant::Phi),
            Phoneme::Consonant(Consonant::Beta),
        ][..]
    );
}

#[test]
fn manner_slot_candidates() {
    let inventory = Inventory::with_everything();
    let g = PhonemeGenerator::parse('L', &inventory).unwrap();
    assert_eq!(
        g.candidates(),
        &[
            Phoneme::Consonant(Consonant::L),
            Phoneme::Consonant(Consonant::Ll),
            Phoneme::Consonant(Consonant::Lambda),
            Phoneme::Consonant(Consonant::LCap),
        ][..]
    );
    let restricted = Inventory::new(
        vec![Consonant::T, Consonant::S, Consonant::N, Consonant::Z],
        vec![Vowel::A],
        vec![NonPulmonicConsonant::Palatal],
    );
    let g = PhonemeGenerator::parse('Z', &restricted).unwrap();
    assert_eq!(
        g.candidates(),
        &[Phoneme::Consonant(Consonant::S), Phoneme::Consonant(Consonant::Z)][..]
    );
    let g = PhonemeGenerator::parse('A', &restricted).unwrap();
    assert_eq!(g.candidates().len(), 4);
}

#[test]
fn every_place_and_manner_letter_selects_from_the_catalog() {
    let inventory = Inventory::with_everything();
    for letter in "BFDASRJKQHGPNTWZXYL".chars() {
        let g = PhonemeGenerator::parse(letter, &inventory).unwrap();
        assert!(!g.candidates().is_empty());
        assert_eq!(g.glyph(), letter);
    }
}

#[test]
fn pick_uses_draw_modulo_count() {
    let inventory = Inventory::new(vec![], vec![Vowel::A, Vowel::I], vec![]);
    let g = PhonemeGenerator::parse('V', &inventory).unwrap();
    assert_eq!(g.pick(0), Phoneme::Vowel(Vowel::A));
    assert_eq!(g.pick(3), Phoneme::Vowel(Vowel::I));
    assert_eq!(g.pick(u64::MAX), Phoneme::Vowel(Vowel::I));
}

#[test]
fn sampling_stays_within_candidates() {
    let inventory = Inventory::with_everything();
    let w = WordGenerator::parse("CV BVN LVZ", &inventory).unwrap();
    let mut rng = StdRng::seed_from_u64(7);
    for _ in 0..200 {
        let word = w.generate(&mut rng);
        assert_eq!(word.len(), 3);
        for (syl, gen) in word.iter().zip(w.syllables()) {
            assert_eq!(syl.parts().len(), gen.slots().len());
            for (p, slot) in syl.parts().iter().zip(gen.slots()) {
                assert!(slot.candidates().contains(p));
            }
        }
    }
}

#[test]
fn sampling_is_deterministic_for_a_seed() {
    let inventory = Inventory::with_everything();
    let w = WordGenerator::parse("CVC VV", &inventory).unwrap();
    let mut a = StdRng::seed_from_u64(42);
    let mut b = StdRng::seed_from_u64(42);
    for _ in 0..20 {
        let x: Vec<String> = w.generate(&mut a).iter().map(|s| s.render()).collect();
        let y: Vec<String> = w.generate(&mut b).iter().map(|s| s.render()).collect();
        assert_eq!(x, y);
    }
}

#[test]
fn single_candidate_slot_always_gives_it() {
    let inventory = Inventory::new(vec![Consonant::K], vec![Vowel::O], vec![]);
    let w = WordGenerator::parse("CV", &inventory).unwrap();
    let mut rng = StdRng::seed_from_u64(1);
    for _ in 0..10 {
        let word = w.generate(&mut rng);
        assert_eq!(word[0].render(), "ko");
    }
}

#[test]
fn gen_error_messages() {
    assert_eq!(ParseError::NoInput.message(), "no input");
    assert_eq!(ParseError::UnknownCharacter('x').message(), "unrecognized character: 'x'");
    assert_eq!(ParseError::Unsupported('[').message(), "unsupported group: '['");
    assert_eq!(
        ParseError::NoCandidates('V').message(),
        "no phoneme of the inventory matches 'V'"
    );
}

#[test]
fn batch_draws_each_word_from_some_pattern() {
    let inventory = Inventory::new(
        vec![Consonant::P, Consonant::K],
        vec![Vowel::A, Vowel::U],
        vec![],
    );
    let patterns = vec![
        WordGenerator::parse("CV", &inventory).unwrap(),
        WordGenerator::parse("VC VV", &inventory).unwrap(),
    ];
    let mut rng = StdRng::seed_from_u64(3);
    let words = conlang::gen::generate_batch(&patterns, 50, &mut rng);
    assert_eq!(words.len(), 50);
    let mut seen_first = false;
    let mut seen_second = false;
    for word in &words {
        let text: Vec<String> = word.iter().map(|s| s.render()).collect();
        let consonant = |c: char| c == 'p' || c == 'k';
        let vowel = |c: char| c == 'a' || c == 'u';
        let matches = |s: &str, shape: &str| {
            s.chars().count() == shape.len()
                && s.chars().zip(shape.chars()).all(|(c, k)| if k == 'C' { consonant(c) } else { vowel(c) })
        };
        if text.len() == 1 && matches(&text[0], "CV") {
            seen_first = true;
        } else {
            assert!(text.len() == 2 && matches(&text[0], "VC") && matches(&text[1], "VV"));
            seen_second = true;
        }
    }
    assert!(seen_first && seen_second);
    assert!(conlang::gen::generate_batch(&patterns, 0, &mut rng).is_empty());
}
