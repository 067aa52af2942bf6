//! Phonetics: the catalog of IPA phonemes with their codes and articulation
//! attributes, the inventory of phonemes a language uses, and syllables.

use crate::trusted::{phonemes_of, push_char, PhonemeVec};
use vstd::prelude::*;

verus! {

/// Why a single symbol could not be read.
#[derive(Clone, Copy, PartialEq, Eq, Structural, Debug)]
pub enum ParseError {
    /// The text held no symbol.
    NoInput,
    /// The text held more than one symbol.
    TooManyCharacters,
    /// The character stands for nothing that was asked for.
    UnknownCharacter(char),
}

/// Turns the result of a character lookup into a parse result.
pub open spec fn spec_result<T>(found: Option<T>, c: char) -> Result<T, ParseError> {
    match found {
        Some(x) => Ok(x),
        None => Err(ParseError::UnknownCharacter(c)),
    }
}

/// The [place of articulation](https://en.wikipedia.org/wiki/Place_of_articulation): where in
/// the vocal tract a consonant is made. A bilabial sound like "p" comes from the lips, a
/// glottal sound like "h" from the throat.
///
/// In a pattern each place is named by one upper-case letter (see `letter`).
#[derive(Clone, Copy, Debug, PartialEq, Eq, Structural, PartialOrd, Ord, Hash)]
pub enum Place {
    Bilabial,
    Labiodental,
    Dental,
    Alveolar,
    PostAlveolar,
    Retroflex,
    Palatal,
    Velar,
    Uvular,
    Pharyngeal,
    Glottal,
}

impl Place {
    /// The pattern letter that names this place.
    pub open spec fn spec_letter(self) -> char {
        match self {
            Place::Bilabial => 'B',
            Place::Labiodental => 'F',
            Place::Dental => 'D',
            Place::Alveolar => 'A',
            Place::PostAlveolar => 'S',
            Place::Retroflex => 'R',
            Place::Palatal => 'J',
            Place::Velar => 'K',
            Place::Uvular => 'Q',
            Place::Pharyngeal => 'H',
            Place::Glottal => 'G',
        }
    }

    /// The place that the pattern letter `c` names, if any.
    pub open spec fn spec_from_letter(c: char) -> Option<Place> {
        match c {
            'B' => Some(Place::Bilabial),
            'F' => Some(Place::Labiodental),
            'D' => Some(Place::Dental),
            'A' => Some(Place::Alveolar),
            'S' => Some(Place::PostAlveolar),
            'R' => Some(Place::Retroflex),
            'J' => Some(Place::Palatal),
            'K' => Some(Place::Velar),
            'Q' => Some(Place::Uvular),
            'H' => Some(Place::Pharyngeal),
            'G' => Some(Place::Glottal),
            _ => None,
        }
    }

    /// The pattern letter that names this place.
    pub fn letter(&self) -> (r: char)
        ensures
            r == self.spec_letter(),
    {
        match self {
            Place::Bilabial => 'B',
            Place::Labiodental => 'F',
            Place::Dental => 'D',
            Place::Alveolar => 'A',
            Place::PostAlveolar => 'S',
            Place::Retroflex => 'R',
            Place::Palatal => 'J',
            Place::Velar => 'K',
            Place::Uvular => 'Q',
            Place::Pharyngeal => 'H',
            Place::Glottal => 'G',
        }
    }

    /// Reads a pattern letter as a place.
    pub fn from_letter(c: char) -> (r: Result<Place, ParseError>)
        ensures
            r == spec_result(Place::spec_from_letter(c), c),
    {
        match c {
            'B' => Ok(Place::Bilabial),
            'F' => Ok(Place::Labiodental),
            'D' => Ok(Place::Dental),
            'A' => Ok(Place::Alveolar),
            'S' => Ok(Place::PostAlveolar),
            'R' => Ok(Place::Retroflex),
            'J' => Ok(Place::Palatal),
            'K' => Ok(Place::Velar),
            'Q' => Ok(Place::Uvular),
            'H' => Ok(Place::Pharyngeal),
            'G' => Ok(Place::Glottal),
            _ => Err(ParseError::UnknownCharacter(c)),
        }
    }
}

/// The [manner of articulation](https://en.wikipedia.org/wiki/Manner_of_articulation): how the
/// speech organs shape the airflow. A plosive like "t" stops the air, a nasal like "n" lets it
/// out through the nose, a lateral approximant like "l" lets it pass the sides of the tongue.
///
/// In a pattern each manner is named by one upper-case letter (see `letter`), none of them a
/// letter of a place.
#[derive(Clone, Copy, Debug, PartialEq, Eq, Structural, PartialOrd, Ord, Hash)]
pub enum Manner {
    Plosive,
    Nasal,
    Trill,
    Tap,
    Fricative,
    LateralFricative,
    Approximant,
    LateralApproximant,
}

impl Manner {
    /// The pattern letter that names this manner.
    pub open spec fn spec_letter(self) -> char {
        match self {
            Manner::Plosive => 'P',
            Manner::Nasal => 'N',
            Manner::Trill => 'T',
            Manner::Tap => 'W',
            Manner::Fricative => 'Z',
            Manner::LateralFricative => 'X',
            Manner::Approximant => 'Y',
            Manner::LateralApproximant => 'L',
        }
    }

    /// The manner that the pattern letter `c` names, if any.
    pub open spec fn spec_from_letter(c: char) -> Option<Manner> {
        match c {
            'P' => Some(Manner::Plosive),
            'N' => Some(Manner::Nasal),
            'T' => Some(Manner::Trill),
            'W' => Some(Manner::Tap),
            'Z' => Some(Manner::Fricative),
            'X' => Some(Manner::LateralFricative),
            'Y' => Some(Manner::Approximant),
            'L' => Some(Manner::LateralApproximant),
            _ => None,
        }
    }

    /// The pattern letter that names this manner.
    pub fn letter(&self) -> (r: char)
        ensures
            r == self.spec_letter(),
    {
        match self {
            Manner::Plosive => 'P',
            Manner::Nasal => 'N',
            Manner::Trill => 'T',
            Manner::Tap => 'W',
            Manner::Fricative => 'Z',
            Manner::LateralFricative => 'X',
            Manner::Approximant => 'Y',
            Manner::LateralApproximant => 'L',
        }
    }

    /// Reads a pattern letter as a manner.
    pub fn from_letter(c: char) -> (r: Result<Manner, ParseError>)
        ensures
            r == spec_result(Manner::spec_from_letter(c), c),
    {
        match c {
            'P' => Ok(Manner::Plosive),
            'N' => Ok(Manner::Nasal),
            'T' => Ok(Manner::Trill),
            'W' => Ok(Manner::Tap),
            'Z' => Ok(Manner::Fricative),
            'X' => Ok(Manner::LateralFricative),
            'Y' => Ok(Manner::Approximant),
            'L' => Ok(Manner::LateralApproximant),
            _ => Err(ParseError::UnknownCharacter(c)),
        }
    }
}

/// Each letter names at most one place or manner, in both directions.
pub proof fn lemma_letters(p: Place, m: Manner, c: char)
    ensures
        Place::spec_from_letter(p.spec_letter()) == Some(p),
        Manner::spec_from_letter(m.spec_letter()) == Some(m),
        Place::spec_from_letter(c) is Some ==> Place::spec_from_letter(c)->Some_0.spec_letter() == c,
        Manner::spec_from_letter(c) is Some ==> Manner::spec_from_letter(c)->Some_0.spec_letter()
            == c,
        !(Place::spec_from_letter(c) is Some && Manner::spec_from_letter(c) is Some),
{
}

/// For a vowel, how high the tongue is in the mouth: from 1, fully open like "a", to 9, fully
/// close like "i". Some vowels, like "ɪ" and "ɐ", lie between the chart's named rows.
#[derive(Clone, Copy, Debug, PartialEq, Eq, Structural, PartialOrd, Ord, Hash)]
pub struct Height {
    value: u8,
}

impl View for Height {
    type V = nat;

    closed spec fn view(&self) -> nat {
        self.value as nat
    }
}

impl Height {
    #[verifier::type_invariant]
    spec fn inv(self) -> bool {
        1 <= self.value <= 9
    }

    /// A height of `value`, which lies in 1 to 9.
    pub fn new(value: u8) -> (r: Height)
        requires
            1 <= value <= 9,
        ensures
            r@ == value as nat,
    {
        Height { value }
    }

    /// The height as a number from 1 to 9.
    pub fn value(&self) -> (r: u8)
        ensures
            r as nat == self@,
            1 <= r <= 9,
    {
        proof {
            use_type_invariant(self);
        }
        self.value
    }
}

/// For a vowel, how far forward the tongue is: from 1, fully back like "u", to 9, fully front
/// like "i". The chart's slant is not corrected for, so the open front vowel "a" has 6.
#[derive(Clone, Copy, Debug, PartialEq, Eq, Structural, PartialOrd, Ord, Hash)]
pub struct Frontness {
    value: u8,
}

impl View for Frontness {
    type V = nat;

    closed spec fn view(&self) -> nat {
        self.value as nat
    }
}

impl Frontness {
    #[verifier::type_invariant]
    spec fn inv(self) -> bool {
        1 <= self.value <= 9
    }

    /// A frontness of `value`, which lies in 1 to 9.
    pub fn new(value: u8) -> (r: Frontness)
        requires
            1 <= value <= 9,
        ensures
            r@ == value as nat,
    {
        Frontness { value }
    }

    /// The frontness as a number from 1 to 9.
    pub fn value(&self) -> (r: u8)
        ensures
            r as nat == self@,
            1 <= r <= 9,
    {
        proof {
            use_type_invariant(self);
        }
        self.value
    }
}

/// A pulmonic consonant of the IPA chart.
#[derive(Clone, Copy, PartialEq, Eq, Structural, PartialOrd, Ord, Hash, Debug)]
pub enum Consonant {
    P, // p
    B, // b
    T, // t
    D, // d
    TRetroflex, // ʈ
    DRetroflex, // ɖ
    C, // c
    JPalatal, // ɟ
    K, // k
    G, // g
    Q, // q
    GCap, // ɢ
    GlottalStop, // ʔ
    M, // m
    MHook, // ɱ
    N, // n
    NRetroflex, // ɳ
    NPalatal, // ɲ
    NVelar, // ŋ
    NUvular, // ɴ
    BCap, // ʙ
    Rrr, // r
    RCap, // ʀ
    VTap, // ⱱ
    RTap, // ɾ
    RFlap, // ɽ
    Phi, // ɸ
    Beta, // β
    F, // f
    V, // v
    Theta, // θ
    Del, // ð
    S, // s
    Z, // z
    Esh, // ʃ
    Ezh, // ʒ
    Sh, // ʂ
    Zh, // ʐ
    Ch, // ç
    JCurl, // ʝ
    X, // x
    Gamma, // ɣ
    Xh, // χ
    Yr, // ʁ
    HBar, // ħ
    Crook, // ʕ
    H, // h
    HCurl, // ɦ
    LBelt, // ɬ
    Lezh, // ɮ
    VHook, // ʋ
    RTilt, // ɹ
    RTiltHook, // ɻ
    J, // j
    MTiltTail, // ɰ
    L, // l
    Ll, // ɭ
    Lambda, // ʎ
    LCap, // ʟ
}

impl Consonant {
    /// The IPA character that stands for this consonant.
    pub open spec fn spec_code(self) -> char {
        match self {
            Consonant::P => 'p',
            Consonant::B => 'b',
            Consonant::T => 't',
            Consonant::D => 'd',
            Consonant::TRetroflex => 'ʈ',
            Consonant::DRetroflex => 'ɖ',
            Consonant::C => 'c',
            Consonant::JPalatal => 'ɟ',
            Consonant::K => 'k',
            Consonant::G => 'g',
            Consonant::Q => 'q',
            Consonant::GCap => 'ɢ',
            Consonant::GlottalStop => 'ʔ',
            Consonant::M => 'm',
            Consonant::MHook => 'ɱ',
            Consonant::N => 'n',
            Consonant::NRetroflex => 'ɳ',
            Consonant::NPalatal => 'ɲ',
            Consonant::NVelar => 'ŋ',
            Consonant::NUvular => 'ɴ',
            Consonant::BCap => 'ʙ',
            Consonant::Rrr => 'r',
            Consonant::RCap => 'ʀ',
            Consonant::VTap => 'ⱱ',
            Consonant::RTap => 'ɾ',
            Consonant::RFlap => 'ɽ',
            Consonant::Phi => 'ɸ',
            Consonant::Beta => 'β',
            Consonant::F => 'f',
            Consonant::V => 'v',
            Consonant::Theta => 'θ',
            Consonant::Del => 'ð',
            Consonant::S => 's',
            Consonant::Z => 'z',
            Consonant::Esh => 'ʃ',
            Consonant::Ezh => 'ʒ',
            Consonant::Sh => 'ʂ',
            Consonant::Zh => 'ʐ',
            Consonant::Ch => 'ç',
            Consonant::JCurl => 'ʝ',
            Consonant::X => 'x',
            Consonant::Gamma => 'ɣ',
            Consonant::Xh => 'χ',
            Consonant::Yr => 'ʁ',
            Consonant::HBar => 'ħ',
            Consonant::Crook => 'ʕ',
            Consonant::H => 'h',
            Consonant::HCurl => 'ɦ',
            Consonant::LBelt => 'ɬ',
            Consonant::Lezh => 'ɮ',
            Consonant::VHook => 'ʋ',
            Consonant::RTilt => 'ɹ',
            Consonant::RTiltHook => 'ɻ',
            Consonant::J => 'j',
            Consonant::MTiltTail => 'ɰ',
            Consonant::L => 'l',
            Consonant::Ll => 'ɭ',
            Consonant::Lambda => 'ʎ',
            Consonant::LCap => 'ʟ',
        }
    }

    /// The position of this consonant in the catalog order.
    pub open spec fn spec_index(self) -> int {
        match self {
            Consonant::P => 0,
            Consonant::B => 1,
            Consonant::T => 2,
            Consonant::D => 3,
            Consonant::TRetroflex => 4,
            Consonant::DRetroflex => 5,
            Consonant::C => 6,
            Consonant::JPalatal => 7,
            Consonant::K => 8,
            Consonant::G => 9,
            Consonant::Q => 10,
            Consonant::GCap => 11,
            Consonant::GlottalStop => 12,
            Consonant::M => 13,
            Consonant::MHook => 14,
            Consonant::N => 15,
            Consonant::NRetroflex => 16,
            Consonant::NPalatal => 17,
            Consonant::NVelar => 18,
            Consonant::NUvular => 19,
            Consonant::BCap => 20,
            Consonant::Rrr => 21,
            Consonant::RCap => 22,
            Consonant::VTap => 23,
            Consonant::RTap => 24,
            Consonant::RFlap => 25,
            Consonant::Phi => 26,
            Consonant::Beta => 27,
            Consonant::F => 28,
            Consonant::V => 29,
            Consonant::Theta => 30,
            Consonant::Del => 31,
            Consonant::S => 32,
            Consonant::Z => 33,
            Consonant::Esh => 34,
            Consonant::Ezh => 35,
            Consonant::Sh => 36,
            Consonant::Zh => 37,
            Consonant::Ch => 38,
            Consonant::JCurl => 39,
            Consonant::X => 40,
            Consonant::Gamma => 41,
            Consonant::Xh => 42,
            Consonant::Yr => 43,
            Consonant::HBar => 44,
            Consonant::Crook => 45,
            Consonant::H => 46,
            Consonant::HCurl => 47,
            Consonant::LBelt => 48,
            Consonant::Lezh => 49,
            Consonant::VHook => 50,
            Consonant::RTilt => 51,
            Consonant::RTiltHook => 52,
            Consonant::J => 53,
            Consonant::MTiltTail => 54,
            Consonant::L => 55,
            Consonant::Ll => 56,
            Consonant::Lambda => 57,
            Consonant::LCap => 58,
        }
    }

    /// The consonant at position `i` of the catalog order (the last one past the end).
    pub open spec fn at_index(i: int) -> Self {
        if i == 0 {
            Consonant::P
        } else if i == 1 {
            Consonant::B
        } else if i == 2 {
            Consonant::T
        } else if i == 3 {
            Consonant::D
        } else if i == 4 {
            Consonant::TRetroflex
        } else if i == 5 {
            Consonant::DRetroflex
        } else if i == 6 {
            Consonant::C
        } else if i == 7 {
            Consonant::JPalatal
        } else if i == 8 {
            Consonant::K
        } else if i == 9 {
            Consonant::G
        } else if i == 10 {
            Consonant::Q
        } else if i == 11 {
            Consonant::GCap
        } else if i == 12 {
            Consonant::GlottalStop
        } else if i == 13 {
            Consonant::M
        } else if i == 14 {
            Consonant::MHook
        } else if i == 15 {
            Consonant::N
        } else if i == 16 {
            Consonant::NRetroflex
        } else if i == 17 {
            Consonant::NPalatal
        } else if i == 18 {
            Consonant::NVelar
        } else if i == 19 {
            Consonant::NUvular
        } else if i == 20 {
            Consonant::BCap
        } else if i == 21 {
            Consonant::Rrr
        } else if i == 22 {
            Consonant::RCap
        } else if i == 23 {
            Consonant::VTap
        } else if i == 24 {
            Consonant::RTap
        } else if i == 25 {
            Consonant::RFlap
        } else if i == 26 {
            Consonant::Phi
        } else if i == 27 {
            Consonant::Beta
        } else if i == 28 {
            Consonant::F
        } else if i == 29 {
            Consonant::V
        } else if i == 30 {
            Consonant::Theta
        } else if i == 31 {
            Consonant::Del
        } else if i == 32 {
            Consonant::S
        } else if i == 33 {
            Consonant::Z
        } else if i == 34 {
            Consonant::Esh
        } else if i == 35 {
            Consonant::Ezh
        } else if i == 36 {
            Consonant::Sh
        } else if i == 37 {
            Consonant::Zh
        } else if i == 38 {
            Consonant::Ch
        } else if i == 39 {
            Consonant::JCurl
        } else if i == 40 {
            Consonant::X
        } else if i == 41 {
            Consonant::Gamma
        } else if i == 42 {
            Consonant::Xh
        } else if i == 43 {
            Consonant::Yr
        } else if i == 44 {
            Consonant::HBar
        } else if i == 45 {
            Consonant::Crook
        } else if i == 46 {
            Consonant::H
        } else if i == 47 {
            Consonant::HCurl
        } else if i == 48 {
            Consonant::LBelt
        } else if i == 49 {
            Consonant::Lezh
        } else if i == 50 {
            Consonant::VHook
        } else if i == 51 {
            Consonant::RTilt
        } else if i == 52 {
            Consonant::RTiltHook
        } else if i == 53 {
            Consonant::J
        } else if i == 54 {
            Consonant::MTiltTail
        } else if i == 55 {
            Consonant::L
        } else if i == 56 {
            Consonant::Ll
        } else if i == 57 {
            Consonant::Lambda
        } else {
            Consonant::LCap
        }
    }

    /// Every consonant of the catalog, in catalog order.
    pub open spec fn catalog() -> Seq<Self> {
        Seq::new(59, |i: int| Self::at_index(i))
    }

    /// The consonant whose code is `c`, if there is one.
    pub open spec fn spec_from_code(c: char) -> Option<Self> {
        match c {
            'p' => Some(Consonant::P),
            'b' => Some(Consonant::B),
            't' => Some(Consonant::T),
            'd' => Some(Consonant::D),
            'ʈ' => Some(Consonant::TRetroflex),
            'ɖ' => Some(Consonant::DRetroflex),
            'c' => Some(Consonant::C),
            'ɟ' => Some(Consonant::JPalatal),
            'k' => Some(Consonant::K),
            'g' => Some(Consonant::G),
            'q' => Some(Consonant::Q),
            'ɢ' => Some(Consonant::GCap),
            'ʔ' => Some(Consonant::GlottalStop),
            'm' => Some(Consonant::M),
            'ɱ' => Some(Consonant::MHook),
            'n' => Some(Consonant::N),
            'ɳ' => Some(Consonant::NRetroflex),
            'ɲ' => Some(Consonant::NPalatal),
            'ŋ' => Some(Consonant::NVelar),
            'ɴ' => Some(Consonant::NUvular),
            'ʙ' => Some(Consonant::BCap),
            'r' => Some(Consonant::Rrr),
            'ʀ' => Some(Consonant::RCap),
            'ⱱ' => Some(Consonant::VTap),
            'ɾ' => Some(Consonant::RTap),
            'ɽ' => Some(Consonant::RFlap),
            'ɸ' => Some(Consonant::Phi),
            'β' => Some(Consonant::Beta),
            'f' => Some(Consonant::F),
            'v' => Some(Consonant::V),
            'θ' => Some(Consonant::Theta),
            'ð' => Some(Consonant::Del),
            's' => Some(Consonant::S),
            'z' => Some(Consonant::Z),
            'ʃ' => Some(Consonant::Esh),
            'ʒ' => Some(Consonant::Ezh),
            'ʂ' => Some(Consonant::Sh),
            'ʐ' => Some(Consonant::Zh),
            'ç' => Some(Consonant::Ch),
            'ʝ' => Some(Consonant::JCurl),
            'x' => Some(Consonant::X),
            'ɣ' => Some(Consonant::Gamma),
            'χ' => Some(Consonant::Xh),
            'ʁ' => Some(Consonant::Yr),
            'ħ' => Some(Consonant::HBar),
            'ʕ' => Some(Consonant::Crook),
            'h' => Some(Consonant::H),
            'ɦ' => Some(Consonant::HCurl),
            'ɬ' => Some(Consonant::LBelt),
            'ɮ' => Some(Consonant::Lezh),
            'ʋ' => Some(Consonant::VHook),
            'ɹ' => Some(Consonant::RTilt),
            'ɻ' => Some(Consonant::RTiltHook),
            'j' => Some(Consonant::J),
            'ɰ' => Some(Consonant::MTiltTail),
            'l' => Some(Consonant::L),
            'ɭ' => Some(Consonant::Ll),
            'ʎ' => Some(Consonant::Lambda),
            'ʟ' => Some(Consonant::LCap),
            _ => None,
        }
    }

    /// The IPA character that stands for this consonant.
    pub fn code(&self) -> (r: char)
        ensures
            r == self.spec_code(),
    {
        match self {
            Consonant::P => 'p',
            Consonant::B => 'b',
            Consonant::T => 't',
            Consonant::D => 'd',
            Consonant::TRetroflex => 'ʈ',
            Consonant::DRetroflex => 'ɖ',
            Consonant::C => 'c',
            Consonant::JPalatal => 'ɟ',
            Consonant::K => 'k',
            Consonant::G => 'g',
            Consonant::Q => 'q',
            Consonant::GCap => 'ɢ',
            Consonant::GlottalStop => 'ʔ',
            Consonant::M => 'm',
            Consonant::MHook => 'ɱ',
            Consonant::N => 'n',
            Consonant::NRetroflex => 'ɳ',
            Consonant::NPalatal => 'ɲ',
            Consonant::NVelar => 'ŋ',
            Consonant::NUvular => 'ɴ',
            Consonant::BCap => 'ʙ',
            Consonant::Rrr => 'r',
            Consonant::RCap => 'ʀ',
            Consonant::VTap => 'ⱱ',
            Consonant::RTap => 'ɾ',
            Consonant::RFlap => 'ɽ',
            Consonant::Phi => 'ɸ',
            Consonant::Beta => 'β',
            Consonant::F => 'f',
            Consonant::V => 'v',
            Consonant::Theta => 'θ',
            Consonant::Del => 'ð',
            Consonant::S => 's',
            Consonant::Z => 'z',
            Consonant::Esh => 'ʃ',
            Consonant::Ezh => 'ʒ',
            Consonant::Sh => 'ʂ',
            Consonant::Zh => 'ʐ',
            Consonant::Ch => 'ç',
            Consonant::JCurl => 'ʝ',
            Consonant::X => 'x',
            Consonant::Gamma => 'ɣ',
            Consonant::Xh => 'χ',
            Consonant::Yr => 'ʁ',
            Consonant::HBar => 'ħ',
            Consonant::Crook => 'ʕ',
            Consonant::H => 'h',
            Consonant::HCurl => 'ɦ',
            Consonant::LBelt => 'ɬ',
            Consonant::Lezh => 'ɮ',
            Consonant::VHook => 'ʋ',
            Consonant::RTilt => 'ɹ',
            Consonant::RTiltHook => 'ɻ',
            Consonant::J => 'j',
            Consonant::MTiltTail => 'ɰ',
            Consonant::L => 'l',
            Consonant::Ll => 'ɭ',
            Consonant::Lambda => 'ʎ',
            Consonant::LCap => 'ʟ',
        }
    }

    fn nth(i: usize) -> (r: Self)
        ensures
            r == Self::at_index(i as int),
    {
        match i {
            0 => Consonant::P,
            1 => Consonant::B,
            2 => Consonant::T,
            3 => Consonant::D,
            4 => Consonant::TRetroflex,
            5 => Consonant::DRetroflex,
            6 => Consonant::C,
            7 => Consonant::JPalatal,
            8 => Consonant::K,
            9 => Consonant::G,
            10 => Consonant::Q,
            11 => Consonant::GCap,
            12 => Consonant::GlottalStop,
            13 => Consonant::M,
            14 => Consonant::MHook,
            15 => Consonant::N,
            16 => Consonant::NRetroflex,
            17 => Consonant::NPalatal,
            18 => Consonant::NVelar,
            19 => Consonant::NUvular,
            20 => Consonant::BCap,
            21 => Consonant::Rrr,
            22 => Consonant::RCap,
            23 => Consonant::VTap,
            24 => Consonant::RTap,
            25 => Consonant::RFlap,
            26 => Consonant::Phi,
            27 => Consonant::Beta,
            28 => Consonant::F,
            29 => Consonant::V,
            30 => Consonant::Theta,
            31 => Consonant::Del,
            32 => Consonant::S,
            33 => Consonant::Z,
            34 => Consonant::Esh,
            35 => Consonant::Ezh,
            36 => Consonant::Sh,
            37 => Consonant::Zh,
            38 => Consonant::Ch,
            39 => Consonant::JCurl,
            40 => Consonant::X,
            41 => Consonant::Gamma,
            42 => Consonant::Xh,
            43 => Consonant::Yr,
            44 => Consonant::HBar,
            45 => Consonant::Crook,
            46 => Consonant::H,
            47 => Consonant::HCurl,
            48 => Consonant::LBelt,
            49 => Consonant::Lezh,
            50 => Consonant::VHook,
            51 => Consonant::RTilt,
            52 => Consonant::RTiltHook,
            53 => Consonant::J,
            54 => Consonant::MTiltTail,
            55 => Consonant::L,
            56 => Consonant::Ll,
            57 => Consonant::Lambda,
            _ => Consonant::LCap,
        }
    }

    /// Every consonant of the catalog, in a fixed order.
    pub fn all() -> (r: Vec<Self>)
        ensures
            r@ == Self::catalog(),
    {
        let mut out: Vec<Self> = Vec::new();
        let mut i: usize = 0;
        while i < 59
            invariant
                i <= 59,
                out@ == Seq::new(i as nat, |k: int| Self::at_index(k)),
            decreases 59 - i,
        {
            out.push(Self::nth(i));
            i = i + 1;
            assert(out@ =~= Seq::new(i as nat, |k: int| Self::at_index(k)));
        }
        assert(out@ =~= Self::catalog());
        out
    }

    /// Reads one character as a consonant.
    pub fn from_code(c: char) -> (r: Result<Self, ParseError>)
        ensures
            r == spec_result(Self::spec_from_code(c), c),
    {
        match c {
            'p' => Ok(Consonant::P),
            'b' => Ok(Consonant::B),
            't' => Ok(Consonant::T),
            'd' => Ok(Consonant::D),
            'ʈ' => Ok(Consonant::TRetroflex),
            'ɖ' => Ok(Consonant::DRetroflex),
            'c' => Ok(Consonant::C),
            'ɟ' => Ok(Consonant::JPalatal),
            'k' => Ok(Consonant::K),
            'g' => Ok(Consonant::G),
            'q' => Ok(Consonant::Q),
            'ɢ' => Ok(Consonant::GCap),
            'ʔ' => Ok(Consonant::GlottalStop),
            'm' => Ok(Consonant::M),
            'ɱ' => Ok(Consonant::MHook),
            'n' => Ok(Consonant::N),
            'ɳ' => Ok(Consonant::NRetroflex),
            'ɲ' => Ok(Consonant::NPalatal),
            'ŋ' => Ok(Consonant::NVelar),
            'ɴ' => Ok(Consonant::NUvular),
            'ʙ' => Ok(Consonant::BCap),
            'r' => Ok(Consonant::Rrr),
            'ʀ' => Ok(Consonant::RCap),
            'ⱱ' => Ok(Consonant::VTap),
            'ɾ' => Ok(Consonant::RTap),
            'ɽ' => Ok(Consonant::RFlap),
            'ɸ' => Ok(Consonant::Phi),
            'β' => Ok(Consonant::Beta),
            'f' => Ok(Consonant::F),
            'v' => Ok(Consonant::V),
            'θ' => Ok(Consonant::Theta),
            'ð' => Ok(Consonant::Del),
            's' => Ok(Consonant::S),
            'z' => Ok(Consonant::Z),
            'ʃ' => Ok(Consonant::Esh),
            'ʒ' => Ok(Consonant::Ezh),
            'ʂ' => Ok(Consonant::Sh),
            'ʐ' => Ok(Consonant::Zh),
            'ç' => Ok(Consonant::Ch),
            'ʝ' => Ok(Consonant::JCurl),
            'x' => Ok(Consonant::X),
            'ɣ' => Ok(Consonant::Gamma),
            'χ' => Ok(Consonant::Xh),
            'ʁ' => Ok(Consonant::Yr),
            'ħ' => Ok(Consonant::HBar),
            'ʕ' => Ok(Consonant::Crook),
            'h' => Ok(Consonant::H),
            'ɦ' => Ok(Consonant::HCurl),
            'ɬ' => Ok(Consonant::LBelt),
            'ɮ' => Ok(Consonant::Lezh),
            'ʋ' => Ok(Consonant::VHook),
            'ɹ' => Ok(Consonant::RTilt),
            'ɻ' => Ok(Consonant::RTiltHook),
            'j' => Ok(Consonant::J),
            'ɰ' => Ok(Consonant::MTiltTail),
            'l' => Ok(Consonant::L),
            'ɭ' => Ok(Consonant::Ll),
            'ʎ' => Ok(Consonant::Lambda),
            'ʟ' => Ok(Consonant::LCap),
            _ => Err(ParseError::UnknownCharacter(c)),
        }
    }

    /// What reading the text `s` as a single consonant gives.
    pub open spec fn spec_parse(s: Seq<char>) -> Result<Self, ParseError> {
        if s.len() == 0 {
            Err(ParseError::NoInput)
        } else if s.len() > 1 {
            Err(ParseError::TooManyCharacters)
        } else {
            spec_result(Self::spec_from_code(s[0]), s[0])
        }
    }

    /// Reads a text that holds exactly one consonant code.
    pub fn parse(s: &str) -> (r: Result<Self, ParseError>)
        ensures
            r == Self::spec_parse(s@),
    {
        let n = s.unicode_len();
        if n == 0 {
            Err(ParseError::NoInput)
        } else if n > 1 {
            Err(ParseError::TooManyCharacters)
        } else {
            Self::from_code(s.get_char(0))
        }
    }

    /// Reading the code of a consonant gives the consonant back.
    pub proof fn lemma_code_round_trip(x: Self)
        ensures
            Self::spec_from_code(x.spec_code()) == Some(x),
            Self::spec_parse(seq![x.spec_code()]) == Ok::<Self, ParseError>(x),
    {
        assert(seq![x.spec_code()][0] == x.spec_code());
    }

    /// The catalog order puts each consonant at its own position.
    pub proof fn lemma_catalog_positions()
        ensures
            forall|x: Self| #[trigger] Self::at_index(x.spec_index()) == x,
            forall|x: Self| 0 <= #[trigger] x.spec_index() < 59,
            forall|i: int| 0 <= i < 59 ==> #[trigger] Self::at_index(i).spec_index() == i,
    {
    }

    /// How the airflow is shaped for this consonant.
    pub open spec fn spec_manner(self) -> Manner {
        match self {
            Consonant::P => Manner::Plosive,
            Consonant::B => Manner::Plosive,
            Consonant::T => Manner::Plosive,
            Consonant::D => Manner::Plosive,
            Consonant::TRetroflex => Manner::Plosive,
            Consonant::DRetroflex => Manner::Plosive,
            Consonant::C => Manner::Plosive,
            Consonant::JPalatal => Manner::Plosive,
            Consonant::K => Manner::Plosive,
            Consonant::G => Manner::Plosive,
            Consonant::Q => Manner::Plosive,
            Consonant::GCap => Manner::Plosive,
            Consonant::GlottalStop => Manner::Plosive,
            Consonant::M => Manner::Nasal,
            Consonant::MHook => Manner::Nasal,
            Consonant::N => Manner::Nasal,
            Consonant::NRetroflex => Manner::Nasal,
            Consonant::NPalatal => Manner::Nasal,
            Consonant::NVelar => Manner::Nasal,
            Consonant::NUvular => Manner::Nasal,
            Consonant::BCap => Manner::Trill,
            Consonant::Rrr => Manner::Trill,
            Consonant::RCap => Manner::Trill,
            Consonant::VTap => Manner::Tap,
            Consonant::RTap => Manner::Tap,
            Consonant::RFlap => Manner::Tap,
            Consonant::Phi => Manner::Fricative,
            Consonant::Beta => Manner::Fricative,
            Consonant::F => Manner::Fricative,
            Consonant::V => Manner::Fricative,
            Consonant::Theta => Manner::Fricative,
            Consonant::Del => Manner::Fricative,
            Consonant::S => Manner::Fricative,
            Consonant::Z => Manner::Fricative,
            Consonant::Esh => Manner::Fricative,
            Consonant::Ezh => Manner::Fricative,
            Consonant::Sh => Manner::Fricative,
            Consonant::Zh => Manner::Fricative,
            Consonant::Ch => Manner::Fricative,
            Consonant::JCurl => Manner::Fricative,
            Consonant::X => Manner::Fricative,
            Consonant::Gamma => Manner::Fricative,
            Consonant::Xh => Manner::Fricative,
            Consonant::Yr => Manner::Fricative,
            Consonant::HBar => Manner::Fricative,
            Consonant::Crook => Manner::Fricative,
            Consonant::H => Manner::Fricative,
            Consonant::HCurl => Manner::Fricative,
            Consonant::LBelt => Manner::LateralFricative,
            Consonant::Lezh => Manner::LateralFricative,
            Consonant::VHook => Manner::Approximant,
            Consonant::RTilt => Manner::Approximant,
            Consonant::RTiltHook => Manner::Approximant,
            Consonant::J => Manner::Approximant,
            Consonant::MTiltTail => Manner::Approximant,
            Consonant::L => Manner::LateralApproximant,
            Consonant::Ll => Manner::LateralApproximant,
            Consonant::Lambda => Manner::LateralApproximant,
            Consonant::LCap => Manner::LateralApproximant,
        }
    }

    /// Where in the vocal tract this consonant is made.
    pub open spec fn spec_place(self) -> Place {
        match self {
            Consonant::P => Place::Bilabial,
            Consonant::B => Place::Bilabial,
            Consonant::T => Place::Alveolar,
            Consonant::D => Place::Alveolar,
            Consonant::TRetroflex => Place::Retroflex,
            Consonant::DRetroflex => Place::Retroflex,
            Consonant::C => Place::Palatal,
            Consonant::JPalatal => Place::Palatal,
            Consonant::K => Place::Velar,
            Consonant::G => Place::Velar,
            Consonant::Q => Place::Uvular,
            Consonant::GCap => Place::Uvular,
            Consonant::GlottalStop => Place::Glottal,
            Consonant::M => Place::Bilabial,
            Consonant::MHook => Place::Labiodental,
            Consonant::N => Place::Alveolar,
            Consonant::NRetroflex => Place::Retroflex,
            Consonant::NPalatal => Place::Palatal,
            Consonant::NVelar => Place::Velar,
            Consonant::NUvular => Place::Uvular,
            Consonant::BCap => Place::Bilabial,
            Consonant::Rrr => Place::Alveolar,
            Consonant::RCap => Place::Uvular,
            Consonant::VTap => Place::Labiodental,
            Consonant::RTap => Place::Alveolar,
            Consonant::RFlap => Place::Retroflex,
            Consonant::Phi => Place::Bilabial,
            Consonant::Beta => Place::Bilabial,
            Consonant::F => Place::Labiodental,
            Consonant::V => Place::Labiodental,
            Consonant::Theta => Place::Dental,
            Consonant::Del => Place::Dental,
            Consonant::S => Place::Alveolar,
            Consonant::Z => Place::Alveolar,
            Consonant::Esh => Place::PostAlveolar,
            Consonant::Ezh => Place::PostAlveolar,
            Consonant::Sh => Place::Retroflex,
            Consonant::Zh => Place::Retroflex,
            Consonant::Ch => Place::Palatal,
            Consonant::JCurl => Place::Palatal,
            Consonant::X => Place::Velar,
            Consonant::Gamma => Place::Velar,
            Consonant::Xh => Place::Uvular,
            Consonant::Yr => Place::Uvular,
            Consonant::HBar => Place::Pharyngeal,
            Consonant::Crook => Place::Pharyngeal,
            Consonant::H => Place::Glottal,
            Consonant::HCurl => Place::Glottal,
            Consonant::LBelt => Place::Alveolar,
            Consonant::Lezh => Place::Alveolar,
            Consonant::VHook => Place::Labiodental,
            Consonant::RTilt => Place::Alveolar,
            Consonant::RTiltHook => Place::Retroflex,
            Consonant::J => Place::Palatal,
            Consonant::MTiltTail => Place::Velar,
            Consonant::L => Place::Alveolar,
            Consonant::Ll => Place::Retroflex,
            Consonant::Lambda => Place::Palatal,
            Consonant::LCap => Place::Velar,
        }
    }

    /// How the airflow is shaped for this consonant.
    pub fn manner(&self) -> (r: Manner)
        ensures
            r == self.spec_manner(),
    {
        match self {
            Consonant::P => Manner::Plosive,
            Consonant::B => Manner::Plosive,
            Consonant::T => Manner::Plosive,
            Consonant::D => Manner::Plosive,
            Consonant::TRetroflex => Manner::Plosive,
            Consonant::DRetroflex => Manner::Plosive,
            Consonant::C => Manner::Plosive,
            Consonant::JPalatal => Manner::Plosive,
            Consonant::K => Manner::Plosive,
            Consonant::G => Manner::Plosive,
            Consonant::Q => Manner::Plosive,
            Consonant::GCap => Manner::Plosive,
            Consonant::GlottalStop => Manner::Plosive,
            Consonant::M => Manner::Nasal,
            Consonant::MHook => Manner::Nasal,
            Consonant::N => Manner::Nasal,
            Consonant::NRetroflex => Manner::Nasal,
            Consonant::NPalatal => Manner::Nasal,
            Consonant::NVelar => Manner::Nasal,
            Consonant::NUvular => Manner::Nasal,
            Consonant::BCap => Manner::Trill,
            Consonant::Rrr => Manner::Trill,
            Consonant::RCap => Manner::Trill,
            Consonant::VTap => Manner::Tap,
            Consonant::RTap => Manner::Tap,
            Consonant::RFlap => Manner::Tap,
            Consonant::Phi => Manner::Fricative,
            Consonant::Beta => Manner::Fricative,
            Consonant::F => Manner::Fricative,
            Consonant::V => Manner::Fricative,
            Consonant::Theta => Manner::Fricative,
            Consonant::Del => Manner::Fricative,
            Consonant::S => Manner::Fricative,
            Consonant::Z => Manner::Fricative,
            Consonant::Esh => Manner::Fricative,
            Consonant::Ezh => Manner::Fricative,
            Consonant::Sh => Manner::Fricative,
            Consonant::Zh => Manner::Fricative,
            Consonant::Ch => Manner::Fricative,
            Consonant::JCurl => Manner::Fricative,
            Consonant::X => Manner::Fricative,
            Consonant::Gamma => Manner::Fricative,
            Consonant::Xh => Manner::Fricative,
            Consonant::Yr => Manner::Fricative,
            Consonant::HBar => Manner::Fricative,
            Consonant::Crook => Manner::Fricative,
            Consonant::H => Manner::Fricative,
            Consonant::HCurl => Manner::Fricative,
            Consonant::LBelt => Manner::LateralFricative,
            Consonant::Lezh => Manner::LateralFricative,
            Consonant::VHook => Manner::Approximant,
            Consonant::RTilt => Manner::Approximant,
            Consonant::RTiltHook => Manner::Approximant,
            Consonant::J => Manner::Approximant,
            Consonant::MTiltTail => Manner::Approximant,
            Consonant::L => Manner::LateralApproximant,
            Consonant::Ll => Manner::LateralApproximant,
            Consonant::Lambda => Manner::LateralApproximant,
            Consonant::LCap => Manner::LateralApproximant,
        }
    }

    /// Where in the vocal tract this consonant is made.
    pub fn place(&self) -> (r: Place)
        ensures
            r == self.spec_place(),
    {
        match self {
            Consonant::P => Place::Bilabial,
            Consonant::B => Place::Bilabial,
            Consonant::T => Place::Alveolar,
            Consonant::D => Place::Alveolar,
            Consonant::TRetroflex => Place::Retroflex,
            Consonant::DRetroflex => Place::Retroflex,
            Consonant::C => Place::Palatal,
            Consonant::JPalatal => Place::Palatal,
            Consonant::K => Place::Velar,
            Consonant::G => Place::Velar,
            Consonant::Q => Place::Uvular,
            Consonant::GCap => Place::Uvular,
            Consonant::GlottalStop => Place::Glottal,
            Consonant::M => Place::Bilabial,
            Consonant::MHook => Place::Labiodental,
            Consonant::N => Place::Alveolar,
            Consonant::NRetroflex => Place::Retroflex,
            Consonant::NPalatal => Place::Palatal,
            Consonant::NVelar => Place::Velar,
            Consonant::NUvular => Place::Uvular,
            Consonant::BCap => Place::Bilabial,
            Consonant::Rrr => Place::Alveolar,
            Consonant::RCap => Place::Uvular,
            Consonant::VTap => Place::Labiodental,
            Consonant::RTap => Place::Alveolar,
            Consonant::RFlap => Place::Retroflex,
            Consonant::Phi => Place::Bilabial,
            Consonant::Beta => Place::Bilabial,
            Consonant::F => Place::Labiodental,
            Consonant::V => Place::Labiodental,
            Consonant::Theta => Place::Dental,
            Consonant::Del => Place::Dental,
            Consonant::S => Place::Alveolar,
            Consonant::Z => Place::Alveolar,
            Consonant::Esh => Place::PostAlveolar,
            Consonant::Ezh => Place::PostAlveolar,
            Consonant::Sh => Place::Retroflex,
            Consonant::Zh => Place::Retroflex,
            Consonant::Ch => Place::Palatal,
            Consonant::JCurl => Place::Palatal,
            Consonant::X => Place::Velar,
            Consonant::Gamma => Place::Velar,
            Consonant::Xh => Place::Uvular,
            Consonant::Yr => Place::Uvular,
            Consonant::HBar => Place::Pharyngeal,
            Consonant::Crook => Place::Pharyngeal,
            Consonant::H => Place::Glottal,
            Consonant::HCurl => Place::Glottal,
            Consonant::LBelt => Place::Alveolar,
            Consonant::Lezh => Place::Alveolar,
            Consonant::VHook => Place::Labiodental,
            Consonant::RTilt => Place::Alveolar,
            Consonant::RTiltHook => Place::Retroflex,
            Consonant::J => Place::Palatal,
            Consonant::MTiltTail => Place::Velar,
            Consonant::L => Place::Alveolar,
            Consonant::Ll => Place::Retroflex,
            Consonant::Lambda => Place::Palatal,
            Consonant::LCap => Place::Velar,
        }
    }

}

/// A consonant made without air from the lungs: a click or an implosive.
#[derive(Clone, Copy, PartialEq, Eq, Structural, PartialOrd, Ord, Hash, Debug)]
pub enum NonPulmonicConsonant {
    BilabialClick, // ʘ
    DentalClick, // ǀ
    Postalveoalar, // ǃ
    Palatoalveolar, // ǂ
    AlveolarLateral, // ǁ
    BilabialImplosive, // ɓ
    DentalImplosive, // ɗ
    Palatal, // ʄ
    Velar, // ɠ
    Uvular, // ʛ
}

impl NonPulmonicConsonant {
    /// The IPA character that stands for this non-pulmonic consonant.
    pub open spec fn spec_code(self) -> char {
        match self {
            NonPulmonicConsonant::BilabialClick => 'ʘ',
            NonPulmonicConsonant::DentalClick => 'ǀ',
            NonPulmonicConsonant::Postalveoalar => 'ǃ',
            NonPulmonicConsonant::Palatoalveolar => 'ǂ',
            NonPulmonicConsonant::AlveolarLateral => 'ǁ',
            NonPulmonicConsonant::BilabialImplosive => 'ɓ',
            NonPulmonicConsonant::DentalImplosive => 'ɗ',
            NonPulmonicConsonant::Palatal => 'ʄ',
            NonPulmonicConsonant::Velar => 'ɠ',
            NonPulmonicConsonant::Uvular => 'ʛ',
        }
    }

    /// The position of this non-pulmonic consonant in the catalog order.
    pub open spec fn spec_index(self) -> int {
        match self {
            NonPulmonicConsonant::BilabialClick => 0,
            NonPulmonicConsonant::DentalClick => 1,
            NonPulmonicConsonant::Postalveoalar => 2,
            NonPulmonicConsonant::Palatoalveolar => 3,
            NonPulmonicConsonant::AlveolarLateral => 4,
            NonPulmonicConsonant::BilabialImplosive => 5,
            NonPulmonicConsonant::DentalImplosive => 6,
            NonPulmonicConsonant::Palatal => 7,
            NonPulmonicConsonant::Velar => 8,
            NonPulmonicConsonant::Uvular => 9,
        }
    }

    /// The non-pulmonic consonant at position `i` of the catalog order (the last one past the end).
    pub open spec fn at_index(i: int) -> Self {
        if i == 0 {
            NonPulmonicConsonant::BilabialClick
        } else if i == 1 {
            NonPulmonicConsonant::DentalClick
        } else if i == 2 {
            NonPulmonicConsonant::Postalveoalar
        } else if i == 3 {
            NonPulmonicConsonant::Palatoalveolar
        } else if i == 4 {
            NonPulmonicConsonant::AlveolarLateral
        } else if i == 5 {
            NonPulmonicConsonant::BilabialImplosive
        } else if i == 6 {
            NonPulmonicConsonant::DentalImplosive
        } else if i == 7 {
            NonPulmonicConsonant::Palatal
        } else if i == 8 {
            NonPulmonicConsonant::Velar
        } else {
            NonPulmonicConsonant::Uvular
        }
    }

    /// Every non-pulmonic consonant of the catalog, in catalog order.
    pub open spec fn catalog() -> Seq<Self> {
        Seq::new(10, |i: int| Self::at_index(i))
    }

    /// The non-pulmonic consonant whose code is `c`, if there is one.
    pub open spec fn spec_from_code(c: char) -> Option<Self> {
        match c {
            'ʘ' => Some(NonPulmonicConsonant::BilabialClick),
            'ǀ' => Some(NonPulmonicConsonant::DentalClick),
            'ǃ' => Some(NonPulmonicConsonant::Postalveoalar),
            'ǂ' => Some(NonPulmonicConsonant::Palatoalveolar),
            'ǁ' => Some(NonPulmonicConsonant::AlveolarLateral),
            'ɓ' => Some(NonPulmonicConsonant::BilabialImplosive),
            'ɗ' => Some(NonPulmonicConsonant::DentalImplosive),
            'ʄ' => Some(NonPulmonicConsonant::Palatal),
            'ɠ' => Some(NonPulmonicConsonant::Velar),
            'ʛ' => Some(NonPulmonicConsonant::Uvular),
            _ => None,
        }
    }

    /// The IPA character that stands for this non-pulmonic consonant.
    pub fn code(&self) -> (r: char)
        ensures
            r == self.spec_code(),
    {
        match self {
            NonPulmonicConsonant::BilabialClick => 'ʘ',
            NonPulmonicConsonant::DentalClick => 'ǀ',
            NonPulmonicConsonant::Postalveoalar => 'ǃ',
            NonPulmonicConsonant::Palatoalveolar => 'ǂ',
            NonPulmonicConsonant::AlveolarLateral => 'ǁ',
            NonPulmonicConsonant::BilabialImplosive => 'ɓ',
            NonPulmonicConsonant::DentalImplosive => 'ɗ',
            NonPulmonicConsonant::Palatal => 'ʄ',
            NonPulmonicConsonant::Velar => 'ɠ',
            NonPulmonicConsonant::Uvular => 'ʛ',
        }
    }

    fn nth(i: usize) -> (r: Self)
        ensures
            r == Self::at_index(i as int),
    {
        match i {
            0 => NonPulmonicConsonant::BilabialClick,
            1 => NonPulmonicConsonant::DentalClick,
            2 => NonPulmonicConsonant::Postalveoalar,
            3 => NonPulmonicConsonant::Palatoalveolar,
            4 => NonPulmonicConsonant::AlveolarLateral,
            5 => NonPulmonicConsonant::BilabialImplosive,
            6 => NonPulmonicConsonant::DentalImplosive,
            7 => NonPulmonicConsonant::Palatal,
            8 => NonPulmonicConsonant::Velar,
            _ => NonPulmonicConsonant::Uvular,
        }
    }

    /// Every non-pulmonic consonant of the catalog, in a fixed order.
    pub fn all() -> (r: Vec<Self>)
        ensures
            r@ == Self::catalog(),
    {
        let mut out: Vec<Self> = Vec::new();
        let mut i: usize = 0;
        while i < 10
            invariant
                i <= 10,
                out@ == Seq::new(i as nat, |k: int| Self::at_index(k)),
            decreases 10 - i,
        {
            out.push(Self::nth(i));
            i = i + 1;
            assert(out@ =~= Seq::new(i as nat, |k: int| Self::at_index(k)));
        }
        assert(out@ =~= Self::catalog());
        out
    }

    /// Reads one character as a non-pulmonic consonant.
    pub fn from_code(c: char) -> (r: Result<Self, ParseError>)
        ensures
            r == spec_result(Self::spec_from_code(c), c),
    {
        match c {
            'ʘ' => Ok(NonPulmonicConsonant::BilabialClick),
            'ǀ' => Ok(NonPulmonicConsonant::DentalClick),
            'ǃ' => Ok(NonPulmonicConsonant::Postalveoalar),
            'ǂ' => Ok(NonPulmonicConsonant::Palatoalveolar),
            'ǁ' => Ok(NonPulmonicConsonant::AlveolarLateral),
            'ɓ' => Ok(NonPulmonicConsonant::BilabialImplosive),
            'ɗ' => Ok(NonPulmonicConsonant::DentalImplosive),
            'ʄ' => Ok(NonPulmonicConsonant::Palatal),
            'ɠ' => Ok(NonPulmonicConsonant::Velar),
            'ʛ' => Ok(NonPulmonicConsonant::Uvular),
            _ => Err(ParseError::UnknownCharacter(c)),
        }
    }

    /// What reading the text `s` as a single non-pulmonic consonant gives.
    pub open spec fn spec_parse(s: Seq<char>) -> Result<Self, ParseError> {
        if s.len() == 0 {
            Err(ParseError::NoInput)
        } else if s.len() > 1 {
            Err(ParseError::TooManyCharacters)
        } else {
            spec_result(Self::spec_from_code(s[0]), s[0])
        }
    }

    /// Reads a text that holds exactly one non-pulmonic consonant code.
    pub fn parse(s: &str) -> (r: Result<Self, ParseError>)
        ensures
            r == Self::spec_parse(s@),
    {
        let n = s.unicode_len();
        if n == 0 {
            Err(ParseError::NoInput)
        } else if n > 1 {
            Err(ParseError::TooManyCharacters)
        } else {
            Self::from_code(s.get_char(0))
        }
    }

    /// Reading the code of a non-pulmonic consonant gives the non-pulmonic consonant back.
    pub proof fn lemma_code_round_trip(x: Self)
        ensures
            Self::spec_from_code(x.spec_code()) == Some(x),
            Self::spec_parse(seq![x.spec_code()]) == Ok::<Self, ParseError>(x),
    {
        assert(seq![x.spec_code()][0] == x.spec_code());
    }

    /// The catalog order puts each non-pulmonic consonant at its own position.
    pub proof fn lemma_catalog_positions()
        ensures
            forall|x: Self| #[trigger] Self::at_index(x.spec_index()) == x,
            forall|x: Self| 0 <= #[trigger] x.spec_index() < 10,
            forall|i: int| 0 <= i < 10 ==> #[trigger] Self::at_index(i).spec_index() == i,
    {
    }

}

/// A vowel of the IPA chart.
#[derive(Clone, Copy, PartialEq, Eq, Structural, PartialOrd, Ord, Hash, Debug)]
pub enum Vowel {
    I, // i
    Y, // y
    IBar, // ɨ
    UBar, // ʉ
    Uu, // ɯ
    U, // u
    Ii, // ɪ
    YCap, // ʏ
    OmegaFlip, // ʊ
    E, // e
    OCross, // ø
    EReverse, // ɘ
    OBar, // ɵ
    RamsHorns, // ɤ
    O, // o
    Schwa, // ə
    EOpen, // ɛ
    Oe, // œ
    Ze, // ɜ
    EpsilonClosedReversed, // ɞ
    VFlip, // ʌ
    OOpen, // ɔ
    Ae, // æ
    AFlip, // ɐ
    A, // a
    OeSmall, // ɶ
    AScript, // ɑ
    AScriptFlip, // ɒ
}

impl Vowel {
    /// The IPA character that stands for this vowel.
    pub open spec fn spec_code(self) -> char {
        match self {
            Vowel::I => 'i',
            Vowel::Y => 'y',
            Vowel::IBar => 'ɨ',
            Vowel::UBar => 'ʉ',
            Vowel::Uu => 'ɯ',
            Vowel::U => 'u',
            Vowel::Ii => 'ɪ',
            Vowel::YCap => 'ʏ',
            Vowel::OmegaFlip => 'ʊ',
            Vowel::E => 'e',
            Vowel::OCross => 'ø',
            Vowel::EReverse => 'ɘ',
            Vowel::OBar => 'ɵ',
            Vowel::RamsHorns => 'ɤ',
            Vowel::O => 'o',
            Vowel::Schwa => 'ə',
            Vowel::EOpen => 'ɛ',
            Vowel::Oe => 'œ',
            Vowel::Ze => 'ɜ',
            Vowel::EpsilonClosedReversed => 'ɞ',
            Vowel::VFlip => 'ʌ',
            Vowel::OOpen => 'ɔ',
            Vowel::Ae => 'æ',
            Vowel::AFlip => 'ɐ',
            Vowel::A => 'a',
            Vowel::OeSmall => 'ɶ',
            Vowel::AScript => 'ɑ',
            Vowel::AScriptFlip => 'ɒ',
        }
    }

    /// The position of this vowel in the catalog order.
    pub open spec fn spec_index(self) -> int {
        match self {
            Vowel::I => 0,
            Vowel::Y => 1,
            Vowel::IBar => 2,
            Vowel::UBar => 3,
            Vowel::Uu => 4,
            Vowel::U => 5,
            Vowel::Ii => 6,
            Vowel::YCap => 7,
            Vowel::OmegaFlip => 8,
            Vowel::E => 9,
            Vowel::OCross => 10,
            Vowel::EReverse => 11,
            Vowel::OBar => 12,
            Vowel::RamsHorns => 13,
            Vowel::O => 14,
            Vowel::Schwa => 15,
            Vowel::EOpen => 16,
            Vowel::Oe => 17,
            Vowel::Ze => 18,
            Vowel::EpsilonClosedReversed => 19,
            Vowel::VFlip => 20,
            Vowel::OOpen => 21,
            Vowel::Ae => 22,
            Vowel::AFlip => 23,
            Vowel::A => 24,
            Vowel::OeSmall => 25,
            Vowel::AScript => 26,
            Vowel::AScriptFlip => 27,
        }
    }

    /// The vowel at position `i` of the catalog order (the last one past the end).
    pub open spec fn at_index(i: int) -> Self {
        if i == 0 {
            Vowel::I
        } else if i == 1 {
            Vowel::Y
        } else if i == 2 {
            Vowel::IBar
        } else if i == 3 {
            Vowel::UBar
        } else if i == 4 {
            Vowel::Uu
        } else if i == 5 {
            Vowel::U
        } else if i == 6 {
            Vowel::Ii
        } else if i == 7 {
            Vowel::YCap
        } else if i == 8 {
            Vowel::OmegaFlip
        } else if i == 9 {
            Vowel::E
        } else if i == 10 {
            Vowel::OCross
        } else if i == 11 {
            Vowel::EReverse
        } else if i == 12 {
            Vowel::OBar
        } else if i == 13 {
            Vowel::RamsHorns
        } else if i == 14 {
            Vowel::O
        } else if i == 15 {
            Vowel::Schwa
        } else if i == 16 {
            Vowel::EOpen
        } else if i == 17 {
            Vowel::Oe
        } else if i == 18 {
            Vowel::Ze
        } else if i == 19 {
            Vowel::EpsilonClosedReversed
        } else if i == 20 {
            Vowel::VFlip
        } else if i == 21 {
            Vowel::OOpen
        } else if i == 22 {
            Vowel::Ae
        } else if i == 23 {
            Vowel::AFlip
        } else if i == 24 {
            Vowel::A
        } else if i == 25 {
            Vowel::OeSmall
        } else if i == 26 {
            Vowel::AScript
        } else {
            Vowel::AScriptFlip
        }
    }

    /// Every vowel of the catalog, in catalog order.
    pub open spec fn catalog() -> Seq<Self> {
        Seq::new(28, |i: int| Self::at_index(i))
    }

    /// The vowel whose code is `c`, if there is one.
    pub open spec fn spec_from_code(c: char) -> Option<Self> {
        match c {
            'i' => Some(Vowel::I),
            'y' => Some(Vowel::Y),
            'ɨ' => Some(Vowel::IBar),
            'ʉ' => Some(Vowel::UBar),
            'ɯ' => Some(Vowel::Uu),
            'u' => Some(Vowel::U),
            'ɪ' => Some(Vowel::Ii),
            'ʏ' => Some(Vowel::YCap),
            'ʊ' => Some(Vowel::OmegaFlip),
            'e' => Some(Vowel::E),
            'ø' => Some(Vowel::OCross),
            'ɘ' => Some(Vowel::EReverse),
            'ɵ' => Some(Vowel::OBar),
            'ɤ' => Some(Vowel::RamsHorns),
            'o' => Some(Vowel::O),
            'ə' => Some(Vowel::Schwa),
            'ɛ' => Some(Vowel::EOpen),
            'œ' => Some(Vowel::Oe),
            'ɜ' => Some(Vowel::Ze),
            'ɞ' => Some(Vowel::EpsilonClosedReversed),
            'ʌ' => Some(Vowel::VFlip),
            'ɔ' => Some(Vowel::OOpen),
            'æ' => Some(Vowel::Ae),
            'ɐ' => Some(Vowel::AFlip),
            'a' => Some(Vowel::A),
            'ɶ' => Some(Vowel::OeSmall),
            'ɑ' => Some(Vowel::AScript),
            'ɒ' => Some(Vowel::AScriptFlip),
            _ => None,
        }
    }

    /// The IPA character that stands for this vowel.
    pub fn code(&self) -> (r: char)
        ensures
            r == self.spec_code(),
    {
        match self {
            Vowel::I => 'i',
            Vowel::Y => 'y',
            Vowel::IBar => 'ɨ',
            Vowel::UBar => 'ʉ',
            Vowel::Uu => 'ɯ',
            Vowel::U => 'u',
            Vowel::Ii => 'ɪ',
            Vowel::YCap => 'ʏ',
            Vowel::OmegaFlip => 'ʊ',
            Vowel::E => 'e',
            Vowel::OCross => 'ø',
            Vowel::EReverse => 'ɘ',
            Vowel::OBar => 'ɵ',
            Vowel::RamsHorns => 'ɤ',
            Vowel::O => 'o',
            Vowel::Schwa => 'ə',
            Vowel::EOpen => 'ɛ',
            Vowel::Oe => 'œ',
            Vowel::Ze => 'ɜ',
            Vowel::EpsilonClosedReversed => 'ɞ',
            Vowel::VFlip => 'ʌ',
            Vowel::OOpen => 'ɔ',
            Vowel::Ae => 'æ',
            Vowel::AFlip => 'ɐ',
            Vowel::A => 'a',
            Vowel::OeSmall => 'ɶ',
            Vowel::AScript => 'ɑ',
            Vowel::AScriptFlip => 'ɒ',
        }
    }

    fn nth(i: usize) -> (r: Self)
        ensures
            r == Self::at_index(i as int),
    {
        match i {
            0 => Vowel::I,
            1 => Vowel::Y,
            2 => Vowel::IBar,
            3 => Vowel::UBar,
            4 => Vowel::Uu,
            5 => Vowel::U,
            6 => Vowel::Ii,
            7 => Vowel::YCap,
            8 => Vowel::OmegaFlip,
            9 => Vowel::E,
            10 => Vowel::OCross,
            11 => Vowel::EReverse,
            12 => Vowel::OBar,
            13 => Vowel::RamsHorns,
            14 => Vowel::O,
            15 => Vowel::Schwa,
            16 => Vowel::EOpen,
            17 => Vowel::Oe,
            18 => Vowel::Ze,
            19 => Vowel::EpsilonClosedReversed,
            20 => Vowel::VFlip,
            21 => Vowel::OOpen,
            22 => Vowel::Ae,
            23 => Vowel::AFlip,
            24 => Vowel::A,
            25 => Vowel::OeSmall,
            26 => Vowel::AScript,
            _ => Vowel::AScriptFlip,
        }
    }

    /// Every vowel of the catalog, in a fixed order.
    pub fn all() -> (r: Vec<Self>)
        ensures
            r@ == Self::catalog(),
    {
        let mut out: Vec<Self> = Vec::new();
        let mut i: usize = 0;
        while i < 28
            invariant
                i <= 28,
                out@ == Seq::new(i as nat, |k: int| Self::at_index(k)),
            decreases 28 - i,
        {
            out.push(Self::nth(i));
            i = i + 1;
            assert(out@ =~= Seq::new(i as nat, |k: int| Self::at_index(k)));
        }
        assert(out@ =~= Self::catalog());
        out
    }

    /// Reads one character as a vowel.
    pub fn from_code(c: char) -> (r: Result<Self, ParseError>)
        ensures
            r == spec_result(Self::spec_from_code(c), c),
    {
        match c {
            'i' => Ok(Vowel::I),
            'y' => Ok(Vowel::Y),
            'ɨ' => Ok(Vowel::IBar),
            'ʉ' => Ok(Vowel::UBar),
            'ɯ' => Ok(Vowel::Uu),
            'u' => Ok(Vowel::U),
            'ɪ' => Ok(Vowel::Ii),
            'ʏ' => Ok(Vowel::YCap),
            'ʊ' => Ok(Vowel::OmegaFlip),
            'e' => Ok(Vowel::E),
            'ø' => Ok(Vowel::OCross),
            'ɘ' => Ok(Vowel::EReverse),
            'ɵ' => Ok(Vowel::OBar),
            'ɤ' => Ok(Vowel::RamsHorns),
            'o' => Ok(Vowel::O),
            'ə' => Ok(Vowel::Schwa),
            'ɛ' => Ok(Vowel::EOpen),
            'œ' => Ok(Vowel::Oe),
            'ɜ' => Ok(Vowel::Ze),
            'ɞ' => Ok(Vowel::EpsilonClosedReversed),
            'ʌ' => Ok(Vowel::VFlip),
            'ɔ' => Ok(Vowel::OOpen),
            'æ' => Ok(Vowel::Ae),
            'ɐ' => Ok(Vowel::AFlip),
            'a' => Ok(Vowel::A),
            'ɶ' => Ok(Vowel::OeSmall),
            'ɑ' => Ok(Vowel::AScript),
            'ɒ' => Ok(Vowel::AScriptFlip),
            _ => Err(ParseError::UnknownCharacter(c)),
        }
    }

    /// What reading the text `s` as a single vowel gives.
    pub open spec fn spec_parse(s: Seq<char>) -> Result<Self, ParseError> {
        if s.len() == 0 {
            Err(ParseError::NoInput)
        } else if s.len() > 1 {
            Err(ParseError::TooManyCharacters)
        } else {
            spec_result(Self::spec_from_code(s[0]), s[0])
        }
    }

    /// Reads a text that holds exactly one vowel code.
    pub fn parse(s: &str) -> (r: Result<Self, ParseError>)
        ensures
            r == Self::spec_parse(s@),
    {
        let n = s.unicode_len();
        if n == 0 {
            Err(ParseError::NoInput)
        } else if n > 1 {
            Err(ParseError::TooManyCharacters)
        } else {
            Self::from_code(s.get_char(0))
        }
    }

    /// Reading the code of a vowel gives the vowel back.
    pub proof fn lemma_code_round_trip(x: Self)
        ensures
            Self::spec_from_code(x.spec_code()) == Some(x),
            Self::spec_parse(seq![x.spec_code()]) == Ok::<Self, ParseError>(x),
    {
        assert(seq![x.spec_code()][0] == x.spec_code());
    }

    /// The catalog order puts each vowel at its own position.
    pub proof fn lemma_catalog_positions()
        ensures
            forall|x: Self| #[trigger] Self::at_index(x.spec_index()) == x,
            forall|x: Self| 0 <= #[trigger] x.spec_index() < 28,
            forall|i: int| 0 <= i < 28 ==> #[trigger] Self::at_index(i).spec_index() == i,
    {
    }

    /// How high the tongue is for this vowel, from 1 (open) to 9 (close).
    pub open spec fn spec_height(self) -> u8 {
        match self {
            Vowel::I => 9,
            Vowel::Y => 9,
            Vowel::IBar => 9,
            Vowel::UBar => 9,
            Vowel::Uu => 9,
            Vowel::U => 9,
            Vowel::Ii => 8,
            Vowel::YCap => 8,
            Vowel::OmegaFlip => 8,
            Vowel::E => 7,
            Vowel::OCross => 7,
            Vowel::EReverse => 7,
            Vowel::OBar => 7,
            Vowel::RamsHorns => 7,
            Vowel::O => 7,
            Vowel::Schwa => 5,
            Vowel::EOpen => 3,
            Vowel::Oe => 3,
            Vowel::Ze => 3,
            Vowel::EpsilonClosedReversed => 3,
            Vowel::VFlip => 3,
            Vowel::OOpen => 3,
            Vowel::Ae => 2,
            Vowel::AFlip => 2,
            Vowel::A => 1,
            Vowel::OeSmall => 1,
            Vowel::AScript => 1,
            Vowel::AScriptFlip => 1,
        }
    }

    /// How far forward the tongue is for this vowel, from 1 (back) to 9 (front).
    pub open spec fn spec_frontness(self) -> u8 {
        match self {
            Vowel::I => 9,
            Vowel::Y => 9,
            Vowel::IBar => 5,
            Vowel::UBar => 5,
            Vowel::Uu => 1,
            Vowel::U => 1,
            Vowel::Ii => 8,
            Vowel::YCap => 8,
            Vowel::OmegaFlip => 1,
            Vowel::E => 9,
            Vowel::OCross => 9,
            Vowel::EReverse => 5,
            Vowel::OBar => 5,
            Vowel::RamsHorns => 1,
            Vowel::O => 1,
            Vowel::Schwa => 5,
            Vowel::EOpen => 8,
            Vowel::Oe => 8,
            Vowel::Ze => 4,
            Vowel::EpsilonClosedReversed => 4,
            Vowel::VFlip => 1,
            Vowel::OOpen => 1,
            Vowel::Ae => 7,
            Vowel::AFlip => 3,
            Vowel::A => 6,
            Vowel::OeSmall => 6,
            Vowel::AScript => 1,
            Vowel::AScriptFlip => 1,
        }
    }

    /// The height of this vowel.
    pub fn height(&self) -> (r: Height)
        ensures
            r@ == self.spec_height() as nat,
    {
        let value: u8 = match self {
            Vowel::I => 9,
            Vowel::Y => 9,
            Vowel::IBar => 9,
            Vowel::UBar => 9,
            Vowel::Uu => 9,
            Vowel::U => 9,
            Vowel::Ii => 8,
            Vowel::YCap => 8,
            Vowel::OmegaFlip => 8,
            Vowel::E => 7,
            Vowel::OCross => 7,
            Vowel::EReverse => 7,
            Vowel::OBar => 7,
            Vowel::RamsHorns => 7,
            Vowel::O => 7,
            Vowel::Schwa => 5,
            Vowel::EOpen => 3,
            Vowel::Oe => 3,
            Vowel::Ze => 3,
            Vowel::EpsilonClosedReversed => 3,
            Vowel::VFlip => 3,
            Vowel::OOpen => 3,
            Vowel::Ae => 2,
            Vowel::AFlip => 2,
            Vowel::A => 1,
            Vowel::OeSmall => 1,
            Vowel::AScript => 1,
            Vowel::AScriptFlip => 1,
        };
        Height::new(value)
    }

    /// The frontness of this vowel.
    pub fn frontness(&self) -> (r: Frontness)
        ensures
            r@ == self.spec_frontness() as nat,
    {
        let value: u8 = match self {
            Vowel::I => 9,
            Vowel::Y => 9,
            Vowel::IBar => 5,
            Vowel::UBar => 5,
            Vowel::Uu => 1,
            Vowel::U => 1,
            Vowel::Ii => 8,
            Vowel::YCap => 8,
            Vowel::OmegaFlip => 1,
            Vowel::E => 9,
            Vowel::OCross => 9,
            Vowel::EReverse => 5,
            Vowel::OBar => 5,
            Vowel::RamsHorns => 1,
            Vowel::O => 1,
            Vowel::Schwa => 5,
            Vowel::EOpen => 8,
            Vowel::Oe => 8,
            Vowel::Ze => 4,
            Vowel::EpsilonClosedReversed => 4,
            Vowel::VFlip => 1,
            Vowel::OOpen => 1,
            Vowel::Ae => 7,
            Vowel::AFlip => 3,
            Vowel::A => 6,
            Vowel::OeSmall => 6,
            Vowel::AScript => 1,
            Vowel::AScriptFlip => 1,
        };
        Frontness::new(value)
    }

}


impl ParseError {
    /// The message that describes this error.
    pub open spec fn spec_message(self) -> Seq<char> {
        match self {
            ParseError::NoInput => "no input"@,
            ParseError::TooManyCharacters => "too many characters in input"@,
            ParseError::UnknownCharacter(c) => "unknown character '"@.push(c).push('\''),
        }
    }

    /// A human-readable message for this error.
    pub fn message(&self) -> (r: String)
        ensures
            r@ == self.spec_message(),
    {
        match self {
            ParseError::NoInput => String::from_str("no input"),
            ParseError::TooManyCharacters => String::from_str("too many characters in input"),
            ParseError::UnknownCharacter(c) => {
                let mut s = String::from_str("unknown character '");
                push_char(&mut s, *c);
                push_char(&mut s, '\'');
                s
            },
        }
    }
}

/// A phoneme of any of the three families.
#[derive(Clone, Copy, Debug, PartialEq, Eq, Structural, PartialOrd, Ord, Hash)]
pub enum Phoneme {
    Consonant(Consonant),
    Vowel(Vowel),
    NonPulmonicConsonant(NonPulmonicConsonant),
}

impl Phoneme {
    /// The IPA character that stands for this phoneme.
    pub open spec fn spec_code(self) -> char {
        match self {
            Phoneme::Consonant(c) => c.spec_code(),
            Phoneme::Vowel(v) => v.spec_code(),
            Phoneme::NonPulmonicConsonant(c) => c.spec_code(),
        }
    }

    /// The phoneme whose code is `c`, if there is one.
    pub open spec fn spec_from_code(c: char) -> Option<Phoneme> {
        match Consonant::spec_from_code(c) {
            Some(x) => Some(Phoneme::Consonant(x)),
            None => match Vowel::spec_from_code(c) {
                Some(x) => Some(Phoneme::Vowel(x)),
                None => match NonPulmonicConsonant::spec_from_code(c) {
                    Some(x) => Some(Phoneme::NonPulmonicConsonant(x)),
                    None => None,
                },
            },
        }
    }

    /// Every phoneme of the catalog: the consonants, then the vowels, then the non-pulmonic
    /// consonants, each family in its own catalog order.
    pub open spec fn catalog() -> Seq<Phoneme> {
        Consonant::catalog().map_values(|x: Consonant| Phoneme::Consonant(x)) + Vowel::catalog().map_values(
            |x: Vowel| Phoneme::Vowel(x),
        ) + NonPulmonicConsonant::catalog().map_values(
            |x: NonPulmonicConsonant| Phoneme::NonPulmonicConsonant(x),
        )
    }

    /// The codes of the catalog's phonemes, in catalog order.
    pub open spec fn catalog_codes() -> Seq<char> {
        Phoneme::catalog().map_values(|p: Phoneme| p.spec_code())
    }

    /// The IPA character that stands for this phoneme.
    pub fn code(&self) -> (r: char)
        ensures
            r == self.spec_code(),
    {
        match self {
            Phoneme::Consonant(c) => c.code(),
            Phoneme::Vowel(v) => v.code(),
            Phoneme::NonPulmonicConsonant(c) => c.code(),
        }
    }

    /// Reads one character as a phoneme of any family.
    pub fn from_code(c: char) -> (r: Result<Phoneme, ParseError>)
        ensures
            r == spec_result(Phoneme::spec_from_code(c), c),
    {
        match Consonant::from_code(c) {
            Ok(x) => Ok(Phoneme::Consonant(x)),
            Err(_) => match Vowel::from_code(c) {
                Ok(x) => Ok(Phoneme::Vowel(x)),
                Err(_) => match NonPulmonicConsonant::from_code(c) {
                    Ok(x) => Ok(Phoneme::NonPulmonicConsonant(x)),
                    Err(e) => Err(e),
                },
            },
        }
    }

    /// Reading the code of a phoneme gives the phoneme back, whatever its family: no code
    /// of one family is also a code of another.
    pub proof fn lemma_code_round_trip(p: Phoneme)
        ensures
            Phoneme::spec_from_code(p.spec_code()) == Some(p),
    {
        match p {
            Phoneme::Consonant(x) => {
                Consonant::lemma_code_round_trip(x);
            },
            Phoneme::Vowel(x) => {
                Vowel::lemma_code_round_trip(x);
            },
            Phoneme::NonPulmonicConsonant(x) => {
                NonPulmonicConsonant::lemma_code_round_trip(x);
            },
        }
    }

    /// Two phonemes with the same code are the same phoneme.
    pub proof fn lemma_code_injective(p: Phoneme, q: Phoneme)
        ensures
            p.spec_code() == q.spec_code() ==> p == q,
    {
        Phoneme::lemma_code_round_trip(p);
        Phoneme::lemma_code_round_trip(q);
    }

    /// The catalog lists each phoneme once.
    pub proof fn lemma_catalog_no_duplicates()
        ensures
            Phoneme::catalog().no_duplicates(),
            Phoneme::catalog().len() == 97,
    {
        Consonant::lemma_catalog_positions();
        Vowel::lemma_catalog_positions();
        NonPulmonicConsonant::lemma_catalog_positions();
        let s = Phoneme::catalog();
        assert forall|i: int, j: int| 0 <= i < s.len() && 0 <= j < s.len() && i != j implies s[i]
            != s[j] by {
            Phoneme::lemma_catalog_at(i);
            Phoneme::lemma_catalog_at(j);
        }
    }

    proof fn lemma_catalog_at(i: int)
        requires
            0 <= i < 97,
        ensures
            Phoneme::catalog().len() == 97,
            i < 59 ==> Phoneme::catalog()[i] == Phoneme::Consonant(Consonant::at_index(i)),
            59 <= i < 87 ==> Phoneme::catalog()[i] == Phoneme::Vowel(Vowel::at_index(i - 59)),
            87 <= i ==> Phoneme::catalog()[i] == Phoneme::NonPulmonicConsonant(
                NonPulmonicConsonant::at_index(i - 87),
            ),
    {
    }

    /// No two phonemes of the catalog, across all three families, share a code: the list of
    /// all codes holds no character twice, so the set of codes is as large as the catalog.
    pub proof fn lemma_codes_unique()
        ensures
            Phoneme::catalog_codes().no_duplicates(),
            Phoneme::catalog_codes().to_set().len() == Phoneme::catalog().len(),
    {
        Phoneme::lemma_catalog_no_duplicates();
        let s = Phoneme::catalog();
        let codes = Phoneme::catalog_codes();
        assert forall|i: int, j: int|
            0 <= i < codes.len() && 0 <= j < codes.len() && i != j implies codes[i] != codes[j] by {
            Phoneme::lemma_code_injective(s[i], s[j]);
        }
        codes.unique_seq_to_set();
    }
}

/// An ordered sequence of phonemes: one generated or read syllable.
#[derive(Debug)]
pub struct Syllable {
    inner: PhonemeVec,
}

impl View for Syllable {
    type V = Seq<Phoneme>;

    closed spec fn view(&self) -> Seq<Phoneme> {
        phonemes_of(self.inner)
    }
}

/// What reading `s` character by character as phonemes gives: the phonemes in order, or an
/// error naming the first character that is no phoneme's code.
pub open spec fn spec_parse_phonemes(s: Seq<char>) -> Result<Seq<Phoneme>, ParseError> {
    if exists|i: int| 0 <= i < s.len() && (#[trigger] Phoneme::spec_from_code(s[i])) is None {
        let i = choose|i: int|
            0 <= i < s.len() && (#[trigger] Phoneme::spec_from_code(s[i])) is None && forall|j: int|
                0 <= j < i ==> (#[trigger] Phoneme::spec_from_code(s[j])) is Some;
        Err(ParseError::UnknownCharacter(s[i]))
    } else {
        Ok(s.map_values(|c: char| Phoneme::spec_from_code(c)->Some_0))
    }
}

impl Syllable {
    /// A syllable of the given phonemes, in order.
    pub fn new(seq: &[Phoneme]) -> (r: Syllable)
        ensures
            r@ == seq@,
    {
        Syllable { inner: PhonemeVec::from_slice(seq) }
    }

    /// The phonemes of this syllable, in order.
    pub fn parts(&self) -> (r: &[Phoneme])
        ensures
            r@ == self@,
    {
        self.inner.as_slice()
    }

    /// The codes of this syllable's phonemes, with no separator.
    pub fn render(&self) -> (r: String)
        ensures
            r@ == self@.map_values(|p: Phoneme| p.spec_code()),
    {
        let parts = self.parts();
        let mut out = String::new();
        let mut i: usize = 0;
        while i < parts.len()
            invariant
                i <= parts@.len(),
                parts@ == self@,
                out@ == parts@.subrange(0, i as int).map_values(|p: Phoneme| p.spec_code()),
            decreases parts.len() - i,
        {
            push_char(&mut out, parts[i].code());
            i = i + 1;
            assert(out@ =~= parts@.subrange(0, i as int).map_values(|p: Phoneme| p.spec_code()));
        }
        assert(parts@.subrange(0, i as int) =~= parts@);
        out
    }

    /// Reads a syllable written as phoneme codes with no separator.
    pub fn parse(s: &str) -> (r: Result<Syllable, ParseError>)
        ensures
            match r {
                Ok(y) => spec_parse_phonemes(s@) == Ok::<Seq<Phoneme>, ParseError>(y@),
                Err(e) => spec_parse_phonemes(s@) == Err::<Seq<Phoneme>, ParseError>(e),
            },
    {
        let n = s.unicode_len();
        let mut out: Vec<Phoneme> = Vec::new();
        let mut i: usize = 0;
        while i < n
            invariant
                n == s@.len(),
                i <= n,
                forall|j: int| 0 <= j < i ==> (#[trigger] Phoneme::spec_from_code(s@[j])) is Some,
                out@ == s@.subrange(0, i as int).map_values(
                    |c: char| Phoneme::spec_from_code(c)->Some_0,
                ),
            decreases n - i,
        {
            let c = s.get_char(i);
            match Phoneme::from_code(c) {
                Ok(p) => {
                    out.push(p);
                },
                Err(e) => {
                    assert(Phoneme::spec_from_code(s@[i as int]) is None);
                    let ghost k = choose|k: int|
                        0 <= k < s@.len() && (#[trigger] Phoneme::spec_from_code(s@[k])) is None
                            && forall|j: int|
                            0 <= j < k ==> (#[trigger] Phoneme::spec_from_code(s@[j])) is Some;
                    assert(k == i) by {
                        if k < i {
                        } else if k > i {
                            assert(Phoneme::spec_from_code(s@[i as int]) is Some);
                        }
                    }
                    return Err(e);
                },
            }
            i = i + 1;
            assert(out@ =~= s@.subrange(0, i as int).map_values(
                |c: char| Phoneme::spec_from_code(c)->Some_0,
            ));
        }
        assert(s@.subrange(0, n as int) =~= s@);
        Ok(Syllable::new(out.as_slice()))
    }
}

impl PartialEq for Syllable {
    fn eq(&self, other: &Syllable) -> (r: bool) {
        let a = self.parts();
        let b = other.parts();
        if a.len() != b.len() {
            return false;
        }
        let mut i: usize = 0;
        while i < a.len()
            invariant
                a@ == self@,
                b@ == other@,
                a@.len() == b@.len(),
                i <= a@.len(),
                forall|k: int| 0 <= k < i ==> a@[k] == b@[k],
            decreases a.len() - i,
        {
            if a[i] != b[i] {
                return false;
            }
            i = i + 1;
        }
        assert(a@ =~= b@);
        true
    }
}

impl vstd::std_specs::cmp::PartialEqSpecImpl for Syllable {
    open spec fn obeys_eq_spec() -> bool {
        true
    }

    open spec fn eq_spec(&self, other: &Syllable) -> bool {
        self@ == other@
    }
}

impl Eq for Syllable {}

/// The phonemes that one language uses: a selection of consonants, vowels and non-pulmonic
/// consonants, kept in the order given.
#[derive(Clone, Debug)]
pub struct Inventory {
    consonants: Vec<Consonant>,
    vowels: Vec<Vowel>,
    non_pulmonic_consonants: Vec<NonPulmonicConsonant>,
}

impl Inventory {
    /// The consonants of this inventory, in order.
    pub closed spec fn spec_consonants(&self) -> Seq<Consonant> {
        self.consonants@
    }

    /// The vowels of this inventory, in order.
    pub closed spec fn spec_vowels(&self) -> Seq<Vowel> {
        self.vowels@
    }

    /// The non-pulmonic consonants of this inventory, in order.
    pub closed spec fn spec_non_pulmonic_consonants(&self) -> Seq<NonPulmonicConsonant> {
        self.non_pulmonic_consonants@
    }

    /// An inventory of exactly the given phonemes, kept as they are.
    pub fn new(
        consonants: Vec<Consonant>,
        vowels: Vec<Vowel>,
        non_pulmonic_consonants: Vec<NonPulmonicConsonant>,
    ) -> (r: Inventory)
        ensures
            r.spec_consonants() == consonants@,
            r.spec_vowels() == vowels@,
            r.spec_non_pulmonic_consonants() == non_pulmonic_consonants@,
    {
        Inventory { consonants, vowels, non_pulmonic_consonants }
    }

    /// The inventory of every phoneme of the catalog.
    pub fn with_everything() -> (r: Inventory)
        ensures
            r.spec_consonants() == Consonant::catalog(),
            r.spec_vowels() == Vowel::catalog(),
            r.spec_non_pulmonic_consonants() == NonPulmonicConsonant::catalog(),
    {
        Inventory::new(Consonant::all(), Vowel::all(), NonPulmonicConsonant::all())
    }

    /// The consonants of this inventory, in order.
    pub fn consonants(&self) -> (r: &[Consonant])
        ensures
            r@ == self.spec_consonants(),
    {
        self.consonants.as_slice()
    }

    /// The vowels of this inventory, in order.
    pub fn vowels(&self) -> (r: &[Vowel])
        ensures
            r@ == self.spec_vowels(),
    {
        self.vowels.as_slice()
    }

    /// The non-pulmonic consonants of this inventory, in order.
    pub fn non_pulmonic_consonants(&self) -> (r: &[NonPulmonicConsonant])
        ensures
            r@ == self.spec_non_pulmonic_consonants(),
    {
        self.non_pulmonic_consonants.as_slice()
    }

    /// The consonant codes, a space, then the vowel codes.
    pub fn render(&self) -> (r: String)
        ensures
            r@ == self.spec_consonants().map_values(|c: Consonant| c.spec_code()).push(' ')
                + self.spec_vowels().map_values(|v: Vowel| v.spec_code()),
    {
        let cs = self.consonants();
        let vs = self.vowels();
        let mut out = String::new();
        let mut i: usize = 0;
        while i < cs.len()
            invariant
                i <= cs@.len(),
                cs@ == self.spec_consonants(),
                out@ == cs@.subrange(0, i as int).map_values(|c: Consonant| c.spec_code()),
            decreases cs.len() - i,
        {
            push_char(&mut out, cs[i].code());
            i = i + 1;
            assert(out@ =~= cs@.subrange(0, i as int).map_values(|c: Consonant| c.spec_code()));
        }
        assert(cs@.subrange(0, i as int) =~= cs@);
        push_char(&mut out, ' ');
        let ghost head = out@;
        let mut j: usize = 0;
        while j < vs.len()
            invariant
                j <= vs@.len(),
                vs@ == self.spec_vowels(),
                out@ == head + vs@.subrange(0, j as int).map_values(|v: Vowel| v.spec_code()),
            decreases vs.len() - j,
        {
            push_char(&mut out, vs[j].code());
            j = j + 1;
            assert(out@ =~= head + vs@.subrange(0, j as int).map_values(|v: Vowel| v.spec_code()));
        }
        assert(vs@.subrange(0, j as int) =~= vs@);
        out
    }
}


impl TryFrom<char> for Consonant {
    type Error = ParseError;

    fn try_from(c: char) -> (r: Result<Consonant, ParseError>) {
        Consonant::from_code(c)
    }
}

impl vstd::std_specs::convert::TryFromSpecImpl<char> for Consonant {
    open spec fn obeys_try_from_spec() -> bool {
        true
    }

    open spec fn try_from_spec(c: char) -> Result<Consonant, ParseError> {
        spec_result(Consonant::spec_from_code(c), c)
    }
}

impl TryFrom<char> for Vowel {
    type Error = ParseError;

    fn try_from(c: char) -> (r: Result<Vowel, ParseError>) {
        Vowel::from_code(c)
    }
}

impl vstd::std_specs::convert::TryFromSpecImpl<char> for Vowel {
    open spec fn obeys_try_from_spec() -> bool {
        true
    }

    open spec fn try_from_spec(c: char) -> Result<Vowel, ParseError> {
        spec_result(Vowel::spec_from_code(c), c)
    }
}

impl TryFrom<char> for NonPulmonicConsonant {
    type Error = ParseError;

    fn try_from(c: char) -> (r: Result<NonPulmonicConsonant, ParseError>) {
        NonPulmonicConsonant::from_code(c)
    }
}

impl vstd::std_specs::convert::TryFromSpecImpl<char> for NonPulmonicConsonant {
    open spec fn obeys_try_from_spec() -> bool {
        true
    }

    open spec fn try_from_spec(c: char) -> Result<NonPulmonicConsonant, ParseError> {
        spec_result(NonPulmonicConsonant::spec_from_code(c), c)
    }
}

impl TryFrom<char> for Phoneme {
    type Error = ParseError;

    fn try_from(c: char) -> (r: Result<Phoneme, ParseError>) {
        Phoneme::from_code(c)
    }
}

impl vstd::std_specs::convert::TryFromSpecImpl<char> for Phoneme {
    open spec fn obeys_try_from_spec() -> bool {
        true
    }

    open spec fn try_from_spec(c: char) -> Result<Phoneme, ParseError> {
        spec_result(Phoneme::spec_from_code(c), c)
    }
}

impl TryFrom<char> for Place {
    type Error = ParseError;

    fn try_from(c: char) -> (r: Result<Place, ParseError>) {
        Place::from_letter(c)
    }
}

impl vstd::std_specs::convert::TryFromSpecImpl<char> for Place {
    open spec fn obeys_try_from_spec() -> bool {
        true
    }

    open spec fn try_from_spec(c: char) -> Result<Place, ParseError> {
        spec_result(Place::spec_from_letter(c), c)
    }
}

impl TryFrom<char> for Manner {
    type Error = ParseError;

    fn try_from(c: char) -> (r: Result<Manner, ParseError>) {
        Manner::from_letter(c)
    }
}

impl vstd::std_specs::convert::TryFromSpecImpl<char> for Manner {
    open spec fn obeys_try_from_spec() -> bool {
        true
    }

    open spec fn try_from_spec(c: char) -> Result<Manner, ParseError> {
        spec_result(Manner::spec_from_letter(c), c)
    }
}

impl std::str::FromStr for Consonant {
    type Err = ParseError;

    fn from_str(s: &str) -> Result<Consonant, ParseError> {
        Consonant::parse(s)
    }
}

impl std::str::FromStr for Vowel {
    type Err = ParseError;

    fn from_str(s: &str) -> Result<Vowel, ParseError> {
        Vowel::parse(s)
    }
}

impl std::str::FromStr for NonPulmonicConsonant {
    type Err = ParseError;

    fn from_str(s: &str) -> Result<NonPulmonicConsonant, ParseError> {
        NonPulmonicConsonant::parse(s)
    }
}

impl std::str::FromStr for Syllable {
    type Err = ParseError;

    fn from_str(s: &str) -> Result<Syllable, ParseError> {
        Syllable::parse(s)
    }
}

/// A family of phonemes whose members are each read from one code character.
pub trait Symbol: Sized {
    /// The member whose code is `c`, if there is one.
    spec fn spec_symbol(c: char) -> Option<Self>;

    /// Reads one code character.
    fn read(c: char) -> (r: Result<Self, ParseError>)
        ensures
            r == spec_result(Self::spec_symbol(c), c),
    ;
}

impl Symbol for Consonant {
    open spec fn spec_symbol(c: char) -> Option<Consonant> {
        Consonant::spec_from_code(c)
    }

    fn read(c: char) -> (r: Result<Consonant, ParseError>) {
        Consonant::from_code(c)
    }
}

impl Symbol for Vowel {
    open spec fn spec_symbol(c: char) -> Option<Vowel> {
        Vowel::spec_from_code(c)
    }

    fn read(c: char) -> (r: Result<Vowel, ParseError>) {
        Vowel::from_code(c)
    }
}

impl Symbol for NonPulmonicConsonant {
    open spec fn spec_symbol(c: char) -> Option<NonPulmonicConsonant> {
        NonPulmonicConsonant::spec_from_code(c)
    }

    fn read(c: char) -> (r: Result<NonPulmonicConsonant, ParseError>) {
        NonPulmonicConsonant::from_code(c)
    }
}

/// Reads every character of `src` as a member of the family `T`. All of them read gives the
/// members in order; otherwise the error lists every character that is no member's code, in
/// order, rather than only the first.
pub fn parse_all<T: Symbol>(src: &str) -> (r: Result<Vec<T>, Vec<char>>)
    ensures
        match r {
            Ok(v) => (forall|i: int| 0 <= i < src@.len() ==> (#[trigger] T::spec_symbol(src@[i])) is Some)
                && v@ == src@.map_values(|c: char| T::spec_symbol(c)->Some_0),
            Err(u) => u@.len() > 0 && u@ == src@.filter(|c: char| T::spec_symbol(c) is None),
        },
{
    let n = src.unicode_len();
    let mut out: Vec<T> = Vec::new();
    let mut unknowns: Vec<char> = Vec::new();
    let mut i: usize = 0;
    while i < n
        invariant
            n == src@.len(),
            i <= n,
            unknowns@ == src@.subrange(0, i as int).filter(|c: char| T::spec_symbol(c) is None),
            unknowns@.len() == 0 <==> forall|j: int| 0 <= j < i ==> (#[trigger] T::spec_symbol(src@[j])) is Some,
            unknowns@.len() == 0 ==> out@ == src@.subrange(0, i as int).map_values(
                |c: char| T::spec_symbol(c)->Some_0,
            ),
        decreases n - i,
    {
        let ghost prev = src@.subrange(0, i as int);
        let c = src.get_char(i);
        proof {
            reveal(Seq::filter);
            assert(src@.subrange(0, i + 1).drop_last() =~= prev);
            assert(src@.subrange(0, i + 1).last() == c);
        }
        match T::read(c) {
            Ok(x) => {
                out.push(x);
                proof {
                    if unknowns@.len() == 0 {
                        assert(out@ =~= src@.subrange(0, i + 1).map_values(
                            |c: char| T::spec_symbol(c)->Some_0,
                        ));
                    }
                }
            },
            Err(_) => {
                unknowns.push(c);
            },
        }
        i = i + 1;
    }
    assert(src@.subrange(0, n as int) =~= src@);
    if unknowns.len() == 0 {
        Ok(out)
    } else {
        Err(unknowns)
    }
}


/// The syllables that the sequence `ys` holds, as phoneme sequences.
pub open spec fn syllable_views(ys: Seq<Syllable>) -> Seq<Seq<Phoneme>> {
    ys.map_values(|y: Syllable| y@)
}

/// One single-vowel syllable for each vowel of `vs`, in order.
pub open spec fn vowel_syllables(vs: Seq<Vowel>) -> Seq<Seq<Phoneme>> {
    vs.map_values(|v: Vowel| seq![Phoneme::Vowel(v)])
}

/// The two-vowel syllables that start with `v`: `v` followed by each vowel of `vs` that differs
/// from it, in order.
pub open spec fn vowel_pairs_from(v: Vowel, vs: Seq<Vowel>) -> Seq<Seq<Phoneme>> {
    vs.filter(|w: Vowel| w != v).map_values(|w: Vowel| seq![Phoneme::Vowel(v), Phoneme::Vowel(w)])
}

/// The two-vowel syllables whose first vowel comes from `firsts` and whose second vowel is
/// another vowel of `vs`, ordered by the first vowel, then by the second.
pub open spec fn vowel_pairs(firsts: Seq<Vowel>, vs: Seq<Vowel>) -> Seq<Seq<Phoneme>>
    decreases firsts.len(),
{
    if firsts.len() == 0 {
        Seq::empty()
    } else {
        vowel_pairs(firsts.drop_last(), vs) + vowel_pairs_from(firsts.last(), vs)
    }
}

/// The consonant-vowel syllables that start with `c`, one for each vowel of `vs`, in order.
pub open spec fn onset_pairs_from(c: Consonant, vs: Seq<Vowel>) -> Seq<Seq<Phoneme>> {
    vs.map_values(|w: Vowel| seq![Phoneme::Consonant(c), Phoneme::Vowel(w)])
}

/// Every consonant-vowel syllable over `cs` and `vs`, ordered by consonant, then by vowel.
pub open spec fn onset_pairs(cs: Seq<Consonant>, vs: Seq<Vowel>) -> Seq<Seq<Phoneme>>
    decreases cs.len(),
{
    if cs.len() == 0 {
        Seq::empty()
    } else {
        onset_pairs(cs.drop_last(), vs) + onset_pairs_from(cs.last(), vs)
    }
}

/// The simple syllables of an inventory: each vowel alone, then each pair of two different
/// vowels, then each consonant followed by a vowel.
pub open spec fn simple_syllables(inv: Inventory) -> Seq<Seq<Phoneme>> {
    vowel_syllables(inv.spec_vowels()) + vowel_pairs(inv.spec_vowels(), inv.spec_vowels())
        + onset_pairs(inv.spec_consonants(), inv.spec_vowels())
}

fn syllable_of_one(p: Phoneme) -> (r: Syllable)
    ensures
        r@ == seq![p],
{
    let mut v: Vec<Phoneme> = Vec::new();
    v.push(p);
    assert(v@ =~= seq![p]);
    Syllable::new(v.as_slice())
}

fn syllable_of_two(p: Phoneme, q: Phoneme) -> (r: Syllable)
    ensures
        r@ == seq![p, q],
{
    let mut v: Vec<Phoneme> = Vec::new();
    v.push(p);
    v.push(q);
    assert(v@ =~= seq![p, q]);
    Syllable::new(v.as_slice())
}

/// Every simple syllable of the inventory: each vowel alone, then each pair of two different
/// vowels, then each consonant followed by a vowel.
pub fn generate_all_syllables(inventory: &Inventory) -> (r: Vec<Syllable>)
    ensures
        syllable_views(r@) == simple_syllables(*inventory),
{
    let cs = inventory.consonants();
    let vs = inventory.vowels();
    let mut out: Vec<Syllable> = Vec::new();
    let mut i: usize = 0;
    assert(syllable_views(out@) =~= vowel_syllables(vs@.subrange(0, 0)));
    while i < vs.len()
        invariant
            i <= vs@.len(),
            syllable_views(out@) == vowel_syllables(vs@.subrange(0, i as int)),
        decreases vs.len() - i,
    {
        let ghost prev = syllable_views(out@);
        let v = vs[i];
        let y = syllable_of_one(Phoneme::Vowel(v));
        out.push(y);
        assert(syllable_views(out@) =~= prev.push(seq![Phoneme::Vowel(v)]));
        assert(vowel_syllables(vs@.subrange(0, i + 1)) =~= vowel_syllables(
            vs@.subrange(0, i as int),
        ).push(seq![Phoneme::Vowel(v)]));
        i = i + 1;
    }
    assert(vs@.subrange(0, i as int) =~= vs@);
    let ghost singles = syllable_views(out@);
    let mut i: usize = 0;
    assert(syllable_views(out@) =~= singles + vowel_pairs(vs@.subrange(0, 0), vs@));
    while i < vs.len()
        invariant
            i <= vs@.len(),
            vs@ == inventory.spec_vowels(),
            syllable_views(out@) == singles + vowel_pairs(vs@.subrange(0, i as int), vs@),
        decreases vs.len() - i,
    {
        let v = vs[i];
        let ghost base = syllable_views(out@);
        let mut j: usize = 0;
        assert(vs@.subrange(0, 0) =~= Seq::<Vowel>::empty());
        proof {
            reveal(Seq::filter);
        }
        assert(syllable_views(out@) =~= base + vowel_pairs_from(v, vs@.subrange(0, 0)));
        while j < vs.len()
            invariant
                j <= vs@.len(),
                syllable_views(out@) == base + vowel_pairs_from(v, vs@.subrange(0, j as int)),
            decreases vs.len() - j,
        {
            let w = vs[j];
            proof {
                reveal(Seq::filter);
                assert(vs@.subrange(0, j + 1).drop_last() =~= vs@.subrange(0, j as int));
                assert(vs@.subrange(0, j + 1).last() == w);
            }
            let ghost prev = syllable_views(out@);
            let ghost pair = seq![Phoneme::Vowel(v), Phoneme::Vowel(w)];
            let ghost sofar = vs@.subrange(0, j as int).filter(|x: Vowel| x != v);
            if w != v {
                let y = syllable_of_two(Phoneme::Vowel(v), Phoneme::Vowel(w));
                out.push(y);
                assert(syllable_views(out@) =~= prev.push(pair));
                assert(vs@.subrange(0, j + 1).filter(|x: Vowel| x != v) == sofar.push(w));
                assert(vowel_pairs_from(v, vs@.subrange(0, j + 1)) =~= vowel_pairs_from(
                    v,
                    vs@.subrange(0, j as int),
                ).push(pair));
            } else {
                assert(vs@.subrange(0, j + 1).filter(|x: Vowel| x != v) == sofar);
            }
            j = j + 1;
            assert(syllable_views(out@) =~= base + vowel_pairs_from(v, vs@.subrange(0, j as int)));
        }
        assert(vs@.subrange(0, j as int) =~= vs@);
        i = i + 1;
        proof {
            let firsts = vs@.subrange(0, i as int);
            assert(firsts.drop_last() =~= vs@.subrange(0, i - 1));
            assert(firsts.last() == v);
            assert(syllable_views(out@) =~= singles + vowel_pairs(firsts, vs@));
        }
    }
    assert(vs@.subrange(0, i as int) =~= vs@);
    let ghost with_pairs = syllable_views(out@);
    let mut k: usize = 0;
    assert(syllable_views(out@) =~= with_pairs + onset_pairs(cs@.subrange(0, 0), vs@));
    while k < cs.len()
        invariant
            k <= cs@.len(),
            vs@ == inventory.spec_vowels(),
            cs@ == inventory.spec_consonants(),
            syllable_views(out@) == with_pairs + onset_pairs(cs@.subrange(0, k as int), vs@),
        decreases cs.len() - k,
    {
        let c = cs[k];
        let ghost base = syllable_views(out@);
        let mut j: usize = 0;
        assert(syllable_views(out@) =~= base + onset_pairs_from(c, vs@.subrange(0, 0)));
        while j < vs.len()
            invariant
                j <= vs@.len(),
                syllable_views(out@) == base + onset_pairs_from(c, vs@.subrange(0, j as int)),
            decreases vs.len() - j,
        {
            let ghost prev = syllable_views(out@);
            let w = vs[j];
            let ghost pair = seq![Phoneme::Consonant(c), Phoneme::Vowel(w)];
            let y = syllable_of_two(Phoneme::Consonant(c), Phoneme::Vowel(w));
            out.push(y);
            assert(syllable_views(out@) =~= prev.push(pair));
            assert(onset_pairs_from(c, vs@.subrange(0, j + 1)) =~= onset_pairs_from(
                c,
                vs@.subrange(0, j as int),
            ).push(pair));
            j = j + 1;
            assert(syllable_views(out@) =~= base + onset_pairs_from(c, vs@.subrange(0, j as int)));
        }
        assert(vs@.subrange(0, j as int) =~= vs@);
        k = k + 1;
        proof {
            let firsts = cs@.subrange(0, k as int);
            assert(firsts.drop_last() =~= cs@.subrange(0, k - 1));
            assert(firsts.last() == c);
            assert(syllable_views(out@) =~= with_pairs + onset_pairs(firsts, vs@));
        }
    }
    assert(cs@.subrange(0, k as int) =~= cs@);
    assert(syllable_views(out@) =~= simple_syllables(*inventory));
    out
}

} // verus!
