//! Compiling phonotactic patterns such as `CVC` or `VV BV` into word generators, and
//! sampling words from them.
//!
//! A pattern is read character by character. ASCII whitespace separates syllables. In a
//! syllable, `C` stands for any consonant of the inventory, `V` for any vowel, a place letter
//! (see `Place::letter`) for the consonants made at that place, and a manner letter (see
//! `Manner::letter`) for the consonants made in that manner. Bracket and parenthesis groups
//! are reserved for later use.

use crate::phone::{Consonant, Inventory, Manner, Phoneme, Place, Syllable, Vowel};
use crate::trusted::{
    index_below, next_u64, phonemes_of, push_char, shapes_of, slots_of, PhonemeVec, ShapeVec, SlotVec,
};
use vstd::prelude::*;

verus! {

/// Why a pattern could not be compiled.
#[derive(Clone, Copy, PartialEq, Eq, Structural, Debug)]
pub enum ParseError {
    /// The pattern holds no syllable.
    NoInput,
    /// The character is not part of the pattern grammar.
    UnknownCharacter(char),
    /// The character opens a group that the grammar reserves but does not support yet.
    Unsupported(char),
    /// The character selects no phoneme of the inventory.
    NoCandidates(char),
}

impl ParseError {
    /// The message that describes this error.
    pub open spec fn spec_message(self) -> Seq<char> {
        match self {
            ParseError::NoInput => "no input"@,
            ParseError::UnknownCharacter(c) => "unrecognized character: '"@.push(c).push('\''),
            ParseError::Unsupported(c) => "unsupported group: '"@.push(c).push('\''),
            ParseError::NoCandidates(c) => "no phoneme of the inventory matches '"@.push(c).push(
                '\'',
            ),
        }
    }

    /// A human-readable message for this error.
    pub fn message(&self) -> (r: String)
        ensures
            r@ == self.spec_message(),
    {
        let (mut s, c) = match self {
            ParseError::NoInput => {
                return String::from_str("no input");
            },
            ParseError::UnknownCharacter(c) => (String::from_str("unrecognized character: '"), *c),
            ParseError::Unsupported(c) => (String::from_str("unsupported group: '"), *c),
            ParseError::NoCandidates(c) => (
                String::from_str("no phoneme of the inventory matches '"),
                *c,
            ),
        };
        push_char(&mut s, c);
        push_char(&mut s, '\'');
        s
    }
}

/// The characters that separate syllables in a pattern: ASCII whitespace.
pub open spec fn is_separator(c: char) -> bool {
    c == ' ' || c == '\t' || c == '\n' || c == '\x0C' || c == '\r'
}

fn separator(c: char) -> (r: bool)
    ensures
        r == is_separator(c),
{
    c == ' ' || c == '\t' || c == '\n' || c == '\x0C' || c == '\r'
}

/// Which consonants a slot keeps.
#[derive(Clone, Copy, PartialEq, Eq, Structural, Debug)]
pub enum ConsonantFilter {
    Any,
    AtPlace(Place),
    InManner(Manner),
}

impl ConsonantFilter {
    /// Whether the filter keeps the consonant `c`.
    pub open spec fn keeps(self, c: Consonant) -> bool {
        match self {
            ConsonantFilter::Any => true,
            ConsonantFilter::AtPlace(p) => c.spec_place() == p,
            ConsonantFilter::InManner(m) => c.spec_manner() == m,
        }
    }

    fn test(&self, c: Consonant) -> (r: bool)
        ensures
            r == self.keeps(c),
    {
        match self {
            ConsonantFilter::Any => true,
            ConsonantFilter::AtPlace(p) => c.place() == *p,
            ConsonantFilter::InManner(m) => c.manner() == *m,
        }
    }
}

/// The consonants of `cs` that the filter keeps, in order, as phonemes.
pub open spec fn consonant_candidates(cs: Seq<Consonant>, f: ConsonantFilter) -> Seq<Phoneme>
    decreases cs.len(),
{
    if cs.len() == 0 {
        Seq::empty()
    } else {
        let rest = consonant_candidates(cs.drop_last(), f);
        if f.keeps(cs.last()) {
            rest.push(Phoneme::Consonant(cs.last()))
        } else {
            rest
        }
    }
}

/// The vowels of `vs`, in order, as phonemes.
pub open spec fn vowel_candidates(vs: Seq<Vowel>) -> Seq<Phoneme> {
    vs.map_values(|v: Vowel| Phoneme::Vowel(v))
}

/// What the pattern character `c` selects from the inventory, before the check that the
/// selection is not empty.
pub open spec fn spec_selection(c: char, inv: Inventory) -> Result<Seq<Phoneme>, ParseError> {
    if c == 'C' {
        Ok(consonant_candidates(inv.spec_consonants(), ConsonantFilter::Any))
    } else if c == 'V' {
        Ok(vowel_candidates(inv.spec_vowels()))
    } else if c == '[' || c == '(' {
        Err(ParseError::Unsupported(c))
    } else {
        match Place::spec_from_letter(c) {
            Some(p) => Ok(consonant_candidates(inv.spec_consonants(), ConsonantFilter::AtPlace(p))),
            None => match Manner::spec_from_letter(c) {
                Some(m) => Ok(
                    consonant_candidates(inv.spec_consonants(), ConsonantFilter::InManner(m)),
                ),
                None => Err(ParseError::UnknownCharacter(c)),
            },
        }
    }
}

/// The candidates of the slot that the pattern character `c` compiles to, or why it does not
/// compile.
pub open spec fn spec_slot(c: char, inv: Inventory) -> Result<Seq<Phoneme>, ParseError> {
    match spec_selection(c, inv) {
        Ok(s) => if s.len() == 0 {
            Err(ParseError::NoCandidates(c))
        } else {
            Ok(s)
        },
        Err(e) => Err(e),
    }
}

/// Closes the syllable being read, if it holds anything.
pub open spec fn close_segment<T>(done: Seq<Seq<T>>, cur: Seq<T>) -> Seq<Seq<T>> {
    if cur.len() == 0 {
        done
    } else {
        done.push(cur)
    }
}

/// Compiles the rest `s` of a pattern, left to right, after the syllables `done` and the
/// slots `cur` of the syllable being read.
pub open spec fn spec_scan(
    s: Seq<char>,
    inv: Inventory,
    done: Seq<Seq<(char, Seq<Phoneme>)>>,
    cur: Seq<(char, Seq<Phoneme>)>,
) -> Result<Seq<Seq<(char, Seq<Phoneme>)>>, ParseError>
    decreases s.len(),
{
    if s.len() == 0 {
        let all = close_segment(done, cur);
        if all.len() == 0 {
            Err(ParseError::NoInput)
        } else {
            Ok(all)
        }
    } else if is_separator(s[0]) {
        spec_scan(s.drop_first(), inv, close_segment(done, cur), Seq::empty())
    } else {
        match spec_slot(s[0], inv) {
            Err(e) => Err(e),
            Ok(cands) => spec_scan(s.drop_first(), inv, done, cur.push((s[0], cands))),
        }
    }
}

/// What compiling the pattern `s` against `inv` gives: for each syllable, for each slot, its
/// character and its candidates.
pub open spec fn spec_parse(s: Seq<char>, inv: Inventory) -> Result<
    Seq<Seq<(char, Seq<Phoneme>)>>,
    ParseError,
> {
    spec_scan(s, inv, Seq::empty(), Seq::empty())
}

/// One slot of a syllable pattern: the pattern character it came from and the phonemes it
/// may produce, never none.
pub struct PhonemeGenerator {
    display: char,
    choices: PhonemeVec,
}

impl View for PhonemeGenerator {
    type V = (char, Seq<Phoneme>);

    closed spec fn view(&self) -> (char, Seq<Phoneme>) {
        (self.display, phonemes_of(self.choices))
    }
}

impl PhonemeGenerator {
    #[verifier::type_invariant]
    spec fn inv(self) -> bool {
        phonemes_of(self.choices).len() > 0
    }

    fn consonant_choices(cs: &[Consonant], f: ConsonantFilter) -> (r: PhonemeVec)
        ensures
            phonemes_of(r) == consonant_candidates(cs@, f),
    {
        let mut out = PhonemeVec::new();
        let mut i: usize = 0;
        while i < cs.len()
            invariant
                i <= cs@.len(),
                phonemes_of(out) == consonant_candidates(cs@.subrange(0, i as int), f),
                phonemes_of(out).len() <= i,
            decreases cs.len() - i,
        {
            let ghost prev = cs@.subrange(0, i as int);
            let c = cs[i];
            if f.test(c) {
                out.push(Phoneme::Consonant(c));
            }
            i = i + 1;
            assert(cs@.subrange(0, i as int).drop_last() =~= prev);
        }
        assert(cs@.subrange(0, i as int) =~= cs@);
        out
    }

    fn vowel_choices(vs: &[Vowel]) -> (r: PhonemeVec)
        ensures
            phonemes_of(r) == vowel_candidates(vs@),
    {
        let mut out = PhonemeVec::new();
        let mut i: usize = 0;
        while i < vs.len()
            invariant
                i <= vs@.len(),
                phonemes_of(out) == vowel_candidates(vs@.subrange(0, i as int)),
            decreases vs.len() - i,
        {
            out.push(Phoneme::Vowel(vs[i]));
            i = i + 1;
            assert(phonemes_of(out) =~= vowel_candidates(vs@.subrange(0, i as int)));
        }
        assert(vs@.subrange(0, i as int) =~= vs@);
        out
    }

    /// Compiles one pattern character into a slot whose candidates come from the inventory.
    pub fn parse(c: char, inventory: &Inventory) -> (r: Result<PhonemeGenerator, ParseError>)
        ensures
            match r {
                Ok(g) => g@.0 == c && spec_slot(c, *inventory) == Ok::<
                    Seq<Phoneme>,
                    ParseError,
                >(g@.1),
                Err(e) => spec_slot(c, *inventory) == Err::<Seq<Phoneme>, ParseError>(e),
            },
    {
        let choices = if c == 'C' {
            PhonemeGenerator::consonant_choices(inventory.consonants(), ConsonantFilter::Any)
        } else if c == 'V' {
            PhonemeGenerator::vowel_choices(inventory.vowels())
        } else if c == '[' || c == '(' {
            return Err(ParseError::Unsupported(c));
        } else {
            match Place::from_letter(c) {
                Ok(p) => PhonemeGenerator::consonant_choices(
                    inventory.consonants(),
                    ConsonantFilter::AtPlace(p),
                ),
                Err(_) => match Manner::from_letter(c) {
                    Ok(m) => PhonemeGenerator::consonant_choices(
                        inventory.consonants(),
                        ConsonantFilter::InManner(m),
                    ),
                    Err(_) => {
                        return Err(ParseError::UnknownCharacter(c));
                    },
                },
            }
        };
        if choices.as_slice().len() == 0 {
            Err(ParseError::NoCandidates(c))
        } else {
            Ok(PhonemeGenerator { display: c, choices })
        }
    }

    /// The pattern character this slot came from.
    pub fn glyph(&self) -> (r: char)
        ensures
            r == self@.0,
    {
        self.display
    }

    /// The phonemes this slot may produce, in inventory order.
    pub fn candidates(&self) -> (r: &[Phoneme])
        ensures
            r@ == self@.1,
    {
        self.choices.as_slice()
    }

    /// The candidate that the number `draw` selects: the one at `draw` modulo their count.
    pub fn pick(&self, draw: u64) -> (r: Phoneme)
        ensures
            r == self@.1[(draw as int) % (self@.1.len() as int)],
    {
        proof {
            use_type_invariant(self);
        }
        let cs = self.choices.as_slice();
        let n = cs.len() as u64;
        cs[(draw % n) as usize]
    }

    /// Draws one of the candidates, each index as likely as the random source makes it.
    pub fn generate(&self, rng: &mut rand::rngs::StdRng) -> (r: Phoneme)
        ensures
            self@.1.contains(r),
    {
        proof {
            use_type_invariant(self);
        }
        let draw = next_u64(rng);
        let r = self.pick(draw);
        assert(self@.1[(draw as int) % (self@.1.len() as int)] == r);
        r
    }
}


/// The slot characters of a compiled syllable.
pub open spec fn syllable_glyphs(syl: Seq<(char, Seq<Phoneme>)>) -> Seq<char> {
    syl.map_values(|slot: (char, Seq<Phoneme>)| slot.0)
}

/// The slot characters of each syllable of a compiled word.
pub open spec fn word_glyphs(w: Seq<Seq<(char, Seq<Phoneme>)>>) -> Seq<Seq<char>> {
    w.map_values(|syl: Seq<(char, Seq<Phoneme>)>| syllable_glyphs(syl))
}

/// The words `ws` joined by single spaces.
pub open spec fn spec_join(ws: Seq<Seq<char>>) -> Seq<char>
    decreases ws.len(),
{
    if ws.len() == 0 {
        Seq::empty()
    } else if ws.len() == 1 {
        ws[0]
    } else {
        spec_join(ws.drop_last()).push(' ') + ws.last()
    }
}

/// Whether `word` could come from the compiled pattern `w`: one syllable for each syllable
/// shape, one phoneme for each slot, each phoneme one of its slot's candidates.
pub open spec fn fits(word: Seq<Syllable>, w: Seq<Seq<(char, Seq<Phoneme>)>>) -> bool {
    &&& word.len() == w.len()
    &&& forall|k: int| 0 <= k < w.len() ==> (#[trigger] word[k])@.len() == w[k].len()
    &&& forall|k: int, j: int|
        0 <= k < w.len() && 0 <= j < w[k].len() ==> (#[trigger] w[k][j]).1.contains(word[k]@[j])
}

/// One syllable shape of a pattern: a non-empty sequence of slots.
pub struct SyllableGenerator {
    phonemes: SlotVec,
}

impl View for SyllableGenerator {
    type V = Seq<(char, Seq<Phoneme>)>;

    closed spec fn view(&self) -> Seq<(char, Seq<Phoneme>)> {
        slots_of(self.phonemes).map_values(|g: PhonemeGenerator| g@)
    }
}

impl SyllableGenerator {
    #[verifier::type_invariant]
    spec fn inv(self) -> bool {
        slots_of(self.phonemes).len() > 0
    }

    /// The slots of this syllable, in order.
    pub fn slots(&self) -> (r: &[PhonemeGenerator])
        ensures
            r@.map_values(|g: PhonemeGenerator| g@) == self@,
    {
        self.phonemes.as_slice()
    }

    /// The slot characters of this syllable, with no separator.
    pub fn render(&self) -> (r: String)
        ensures
            r@ == syllable_glyphs(self@),
    {
        let mut out = String::new();
        self.render_into(&mut out);
        out
    }

    fn render_into(&self, out: &mut String)
        ensures
            final(out)@ == old(out)@ + syllable_glyphs(self@),
    {
        let ghost head = out@;
        let slots = self.phonemes.as_slice();
        let mut i: usize = 0;
        while i < slots.len()
            invariant
                i <= slots@.len(),
                slots@.map_values(|g: PhonemeGenerator| g@) == self@,
                out@ == head + syllable_glyphs(self@.subrange(0, i as int)),
            decreases slots.len() - i,
        {
            push_char(out, slots[i].glyph());
            i = i + 1;
            assert(out@ =~= head + syllable_glyphs(self@.subrange(0, i as int)));
        }
        assert(self@.subrange(0, i as int) =~= self@);
    }

    /// Draws one phoneme for each slot, independently.
    pub fn generate(&self, rng: &mut rand::rngs::StdRng) -> (r: Syllable)
        ensures
            r@.len() == self@.len(),
            forall|j: int| 0 <= j < self@.len() ==> (#[trigger] self@[j]).1.contains(r@[j]),
    {
        let slots = self.phonemes.as_slice();
        let mut out: Vec<Phoneme> = Vec::new();
        let mut i: usize = 0;
        while i < slots.len()
            invariant
                i <= slots@.len(),
                slots@.map_values(|g: PhonemeGenerator| g@) == self@,
                out@.len() == i,
                forall|j: int| 0 <= j < i ==> (#[trigger] self@[j]).1.contains(out@[j]),
            decreases slots.len() - i,
        {
            let p = slots[i].generate(rng);
            assert(slots@[i as int]@ == self@[i as int]);
            out.push(p);
            i = i + 1;
        }
        Syllable::new(out.as_slice())
    }
}

/// A compiled pattern: a non-empty sequence of syllable shapes.
pub struct WordGenerator {
    syllables: ShapeVec,
}

impl View for WordGenerator {
    type V = Seq<Seq<(char, Seq<Phoneme>)>>;

    closed spec fn view(&self) -> Seq<Seq<(char, Seq<Phoneme>)>> {
        shapes_of(self.syllables).map_values(|g: SyllableGenerator| g@)
    }
}

impl WordGenerator {
    #[verifier::type_invariant]
    spec fn inv(self) -> bool {
        shapes_of(self.syllables).len() > 0
    }

    /// Compiles a pattern against an inventory. Each whitespace-separated segment becomes a
    /// syllable shape, each of its characters a slot.
    pub fn parse(src: &str, inventory: &Inventory) -> (r: Result<WordGenerator, ParseError>)
        ensures
            match r {
                Ok(w) => spec_parse(src@, *inventory) == Ok::<
                    Seq<Seq<(char, Seq<Phoneme>)>>,
                    ParseError,
                >(w@),
                Err(e) => spec_parse(src@, *inventory) == Err::<
                    Seq<Seq<(char, Seq<Phoneme>)>>,
                    ParseError,
                >(e),
            },
    {
        let n = src.unicode_len();
        let mut done = ShapeVec::new();
        let mut cur = SlotVec::new();
        let mut i: usize = 0;
        assert(src@.subrange(0, n as int) =~= src@);
        assert(shapes_of(done).map_values(|g: SyllableGenerator| g@) =~= Seq::<
            Seq<(char, Seq<Phoneme>)>,
        >::empty());
        assert(slots_of(cur).map_values(|g: PhonemeGenerator| g@) =~= Seq::<
            (char, Seq<Phoneme>),
        >::empty());
        while i < n
            invariant
                n == src@.len(),
                i <= n,
                shapes_of(done).len() + slots_of(cur).len() <= i,
                spec_parse(src@, *inventory) == spec_scan(
                    src@.subrange(i as int, n as int),
                    *inventory,
                    shapes_of(done).map_values(|g: SyllableGenerator| g@),
                    slots_of(cur).map_values(|g: PhonemeGenerator| g@),
                ),
            decreases n - i,
        {
            let ghost rest = src@.subrange(i as int, n as int);
            let ghost done0 = shapes_of(done).map_values(|g: SyllableGenerator| g@);
            let ghost cur0 = slots_of(cur).map_values(|g: PhonemeGenerator| g@);
            let c = src.get_char(i);
            assert(rest[0] == c);
            assert(rest.drop_first() =~= src@.subrange(i + 1, n as int));
            if separator(c) {
                if cur.as_slice().len() > 0 {
                    let syl = SyllableGenerator { phonemes: cur };
                    done.push(syl);
                    cur = SlotVec::new();
                    assert(shapes_of(done).map_values(|g: SyllableGenerator| g@) =~= done0.push(
                        cur0,
                    ));
                }
                assert(slots_of(cur).map_values(|g: PhonemeGenerator| g@) =~= Seq::<
                    (char, Seq<Phoneme>),
                >::empty());
            } else {
                match PhonemeGenerator::parse(c, inventory) {
                    Ok(g) => {
                        cur.push(g);
                        assert(slots_of(cur).map_values(|g: PhonemeGenerator| g@) =~= cur0.push(
                            (c, g@.1),
                        ));
                    },
                    Err(e) => {
                        return Err(e);
                    },
                }
            }
            i = i + 1;
        }
        let ghost done0 = shapes_of(done).map_values(|g: SyllableGenerator| g@);
        let ghost cur0 = slots_of(cur).map_values(|g: PhonemeGenerator| g@);
        if cur.as_slice().len() > 0 {
            let syl = SyllableGenerator { phonemes: cur };
            done.push(syl);
            assert(shapes_of(done).map_values(|g: SyllableGenerator| g@) =~= done0.push(cur0));
        }
        if done.as_slice().len() == 0 {
            Err(ParseError::NoInput)
        } else {
            Ok(WordGenerator { syllables: done })
        }
    }

    /// The syllable shapes of this pattern, in order.
    pub fn syllables(&self) -> (r: &[SyllableGenerator])
        ensures
            r@.map_values(|g: SyllableGenerator| g@) == self@,
    {
        self.syllables.as_slice()
    }

    /// The pattern text: each syllable's slot characters, syllables separated by one space.
    pub fn render(&self) -> (r: String)
        ensures
            r@ == spec_join(word_glyphs(self@)),
    {
        let shapes = self.syllables.as_slice();
        let mut out = String::new();
        let mut k: usize = 0;
        while k < shapes.len()
            invariant
                k <= shapes@.len(),
                shapes@.map_values(|g: SyllableGenerator| g@) == self@,
                out@ == spec_join(word_glyphs(self@.subrange(0, k as int))),
            decreases shapes.len() - k,
        {
            let ghost before = word_glyphs(self@.subrange(0, k as int));
            if k > 0 {
                push_char(&mut out, ' ');
            }
            shapes[k].render_into(&mut out);
            assert(shapes@[k as int]@ == self@[k as int]);
            k = k + 1;
            proof {
                let ws = word_glyphs(self@.subrange(0, k as int));
                assert(ws.drop_last() =~= before);
                assert(ws.last() == syllable_glyphs(self@[k - 1]));
                if k == 1 {
                    assert(out@ =~= ws[0]);
                } else {
                    assert(out@ =~= spec_join(ws.drop_last()).push(' ') + ws.last());
                }
            }
        }
        assert(self@.subrange(0, k as int) =~= self@);
        out
    }

    /// Draws one syllable for each syllable shape, each phoneme from its slot's candidates.
    pub fn generate(&self, rng: &mut rand::rngs::StdRng) -> (r: Vec<Syllable>)
        ensures
            fits(r@, self@),
    {
        let shapes = self.syllables.as_slice();
        let mut out: Vec<Syllable> = Vec::new();
        let mut k: usize = 0;
        while k < shapes.len()
            invariant
                k <= shapes@.len(),
                shapes@.map_values(|g: SyllableGenerator| g@) == self@,
                out@.len() == k,
                forall|q: int| 0 <= q < k ==> (#[trigger] out@[q])@.len() == self@[q].len(),
                forall|q: int, j: int|
                    0 <= q < k && 0 <= j < self@[q].len() ==> (#[trigger] self@[q][j]).1.contains(
                        out@[q]@[j],
                    ),
            decreases shapes.len() - k,
        {
            let y = shapes[k].generate(rng);
            assert(shapes@[k as int]@ == self@[k as int]);
            out.push(y);
            k = k + 1;
        }
        out
    }
}


/// Splits the rest `s` of a text at ASCII whitespace, after the words `done` and the
/// characters `cur` of the word being read. Empty words are dropped.
pub open spec fn words_scan(s: Seq<char>, done: Seq<Seq<char>>, cur: Seq<char>) -> Seq<Seq<char>>
    decreases s.len(),
{
    if s.len() == 0 {
        close_segment(done, cur)
    } else if is_separator(s[0]) {
        words_scan(s.drop_first(), close_segment(done, cur), Seq::empty())
    } else {
        words_scan(s.drop_first(), done, cur.push(s[0]))
    }
}

/// The whitespace-separated segments of `s`, in order.
pub open spec fn spec_words(s: Seq<char>) -> Seq<Seq<char>> {
    words_scan(s, Seq::empty(), Seq::empty())
}

/// The text `s` with its whitespace normalized: its segments separated by single spaces.
pub open spec fn normalized(s: Seq<char>) -> Seq<char> {
    spec_join(spec_words(s))
}

proof fn lemma_glyphs_close(done: Seq<Seq<(char, Seq<Phoneme>)>>, cur: Seq<(char, Seq<Phoneme>)>)
    ensures
        word_glyphs(close_segment(done, cur)) == close_segment(
            word_glyphs(done),
            syllable_glyphs(cur),
        ),
{
    if cur.len() > 0 {
        assert(word_glyphs(done.push(cur)) =~= word_glyphs(done).push(syllable_glyphs(cur)));
    }
}

proof fn lemma_scan_shape(
    s: Seq<char>,
    inv: Inventory,
    done: Seq<Seq<(char, Seq<Phoneme>)>>,
    cur: Seq<(char, Seq<Phoneme>)>,
)
    ensures
        spec_scan(s, inv, done, cur) is Ok ==> word_glyphs(spec_scan(s, inv, done, cur)->Ok_0)
            == words_scan(s, word_glyphs(done), syllable_glyphs(cur)),
        (forall|i: int| 0 <= i < s.len() ==> is_separator(s[i]) || spec_slot(s[i], inv) is Ok)
            ==> (spec_scan(s, inv, done, cur) is Ok <==> words_scan(
            s,
            word_glyphs(done),
            syllable_glyphs(cur),
        ).len() > 0),
    decreases s.len(),
{
    lemma_glyphs_close(done, cur);
    if s.len() == 0 {
    } else if is_separator(s[0]) {
        assert(syllable_glyphs(Seq::<(char, Seq<Phoneme>)>::empty()) =~= Seq::<char>::empty());
        lemma_scan_shape(s.drop_first(), inv, close_segment(done, cur), Seq::empty());
        if forall|i: int| 0 <= i < s.len() ==> is_separator(s[i]) || spec_slot(s[i], inv) is Ok {
            assert forall|i: int| 0 <= i < s.drop_first().len() implies is_separator(
                s.drop_first()[i],
            ) || spec_slot(s.drop_first()[i], inv) is Ok by {
                assert(s.drop_first()[i] == s[i + 1]);
            }
        }
    } else {
        match spec_slot(s[0], inv) {
            Err(e) => {
                assert(!(is_separator(s[0]) || spec_slot(s[0], inv) is Ok));
            },
            Ok(cands) => {
                assert(syllable_glyphs(cur.push((s[0], cands))) =~= syllable_glyphs(cur).push(
                    s[0],
                ));
                lemma_scan_shape(s.drop_first(), inv, done, cur.push((s[0], cands)));
                if forall|i: int|
                    0 <= i < s.len() ==> is_separator(s[i]) || spec_slot(s[i], inv) is Ok {
                    assert forall|i: int| 0 <= i < s.drop_first().len() implies is_separator(
                        s.drop_first()[i],
                    ) || spec_slot(s.drop_first()[i], inv) is Ok by {
                        assert(s.drop_first()[i] == s[i + 1]);
                    }
                }
            },
        }
    }
}

proof fn lemma_words_nonempty(s: Seq<char>, done: Seq<Seq<char>>, cur: Seq<char>, i: int)
    requires
        0 <= i < s.len(),
        !is_separator(s[i]),
    ensures
        words_scan(s, done, cur).len() > 0,
    decreases s.len(),
{
    if i == 0 {
        lemma_words_grow(s.drop_first(), done, cur.push(s[0]));
    } else if is_separator(s[0]) {
        lemma_words_nonempty(s.drop_first(), close_segment(done, cur), Seq::empty(), i - 1);
    } else {
        lemma_words_nonempty(s.drop_first(), done, cur.push(s[0]), i - 1);
    }
}

proof fn lemma_words_grow(s: Seq<char>, done: Seq<Seq<char>>, cur: Seq<char>)
    requires
        cur.len() > 0,
    ensures
        words_scan(s, done, cur).len() > 0,
    decreases s.len(),
{
    if s.len() == 0 {
    } else if is_separator(s[0]) {
        lemma_words_keep(s.drop_first(), close_segment(done, cur));
    } else {
        lemma_words_grow(s.drop_first(), done, cur.push(s[0]));
    }
}

proof fn lemma_words_keep(s: Seq<char>, done: Seq<Seq<char>>)
    requires
        done.len() > 0,
    ensures
        words_scan(s, done, Seq::empty()).len() > 0,
    decreases s.len(),
{
    if s.len() == 0 {
    } else if is_separator(s[0]) {
        lemma_words_keep(s.drop_first(), done);
    } else {
        lemma_words_grow(s.drop_first(), done, Seq::<char>::empty().push(s[0]));
    }
}

/// A filter that keeps every consonant keeps all of them.
proof fn lemma_any_candidates(cs: Seq<Consonant>)
    ensures
        consonant_candidates(cs, ConsonantFilter::Any).len() == cs.len(),
    decreases cs.len(),
{
    if cs.len() > 0 {
        lemma_any_candidates(cs.drop_last());
    }
}

/// A filtered slot holds exactly the consonants of the list that the filter keeps.
pub proof fn lemma_candidates_contains(cs: Seq<Consonant>, f: ConsonantFilter, ph: Phoneme)
    ensures
        consonant_candidates(cs, f).contains(ph) <==> exists|x: Consonant|
            cs.contains(x) && f.keeps(x) && ph == Phoneme::Consonant(x),
    decreases cs.len(),
{
    if cs.len() > 0 {
        let rest = cs.drop_last();
        lemma_candidates_contains(rest, f, ph);
        if consonant_candidates(cs, f).contains(ph) {
            if consonant_candidates(rest, f).contains(ph) {
                let x = choose|x: Consonant|
                    rest.contains(x) && f.keeps(x) && ph == Phoneme::Consonant(x);
                let k = choose|k: int| 0 <= k < rest.len() && rest[k] == x;
                assert(cs[k] == x);
            } else {
                let cand = consonant_candidates(cs, f);
                let before = consonant_candidates(rest, f);
                assert(f.keeps(cs.last()));
                assert(cand == before.push(Phoneme::Consonant(cs.last())));
                let k = choose|k: int| 0 <= k < cand.len() && cand[k] == ph;
                if k < before.len() {
                    assert(before[k] == ph);
                    assert(before.contains(ph));
                }
                assert(ph == Phoneme::Consonant(cs.last()));
                assert(cs[cs.len() - 1] == cs.last());
                assert(cs.contains(cs.last()));
            }
        }
        if exists|x: Consonant| cs.contains(x) && f.keeps(x) && ph == Phoneme::Consonant(x) {
            let x = choose|x: Consonant| cs.contains(x) && f.keeps(x) && ph == Phoneme::Consonant(x);
            let k = choose|k: int| 0 <= k < cs.len() && cs[k] == x;
            if k < cs.len() - 1 {
                assert(rest[k] == x);
                assert(rest.contains(x));
                let before = consonant_candidates(rest, f);
                assert(before.contains(ph));
                let q = choose|q: int| 0 <= q < before.len() && before[q] == ph;
                assert(consonant_candidates(cs, f)[q] == ph);
            } else {
                assert(x == cs.last());
                assert(consonant_candidates(cs, f) == consonant_candidates(rest, f).push(ph));
                assert(consonant_candidates(cs, f)[consonant_candidates(rest, f).len() as int]
                    == ph);
            }
        }
    }
}

/// A place letter's slot draws exactly from the consonants of the inventory made at that
/// place, and a manner letter's slot exactly from those made in that manner.
pub proof fn lemma_filter_slots(c: char, inv: Inventory, ph: Phoneme)
    ensures
        Place::spec_from_letter(c) is Some ==> spec_selection(c, inv) is Ok && (spec_selection(
            c,
            inv,
        )->Ok_0.contains(ph) <==> exists|x: Consonant|
            inv.spec_consonants().contains(x) && x.spec_place() == Place::spec_from_letter(c)->Some_0
                && ph == Phoneme::Consonant(x)),
        Manner::spec_from_letter(c) is Some ==> spec_selection(c, inv) is Ok && (spec_selection(
            c,
            inv,
        )->Ok_0.contains(ph) <==> exists|x: Consonant|
            inv.spec_consonants().contains(x) && x.spec_manner()
                == Manner::spec_from_letter(c)->Some_0 && ph == Phoneme::Consonant(x)),
{
    if let Some(p) = Place::spec_from_letter(c) {
        lemma_candidates_contains(inv.spec_consonants(), ConsonantFilter::AtPlace(p), ph);
    }
    if let Some(m) = Manner::spec_from_letter(c) {
        lemma_candidates_contains(inv.spec_consonants(), ConsonantFilter::InManner(m), ph);
    }
}

/// Against the full catalog, a pattern of `C`, `V` and whitespace that holds at least one
/// letter compiles, into one syllable shape for each whitespace-separated segment, with one
/// slot for each of its characters.
pub proof fn lemma_consonant_vowel_patterns(s: Seq<char>, inv: Inventory)
    requires
        inv.spec_consonants() == Consonant::catalog(),
        inv.spec_vowels() == Vowel::catalog(),
        forall|i: int| 0 <= i < s.len() ==> s[i] == 'C' || s[i] == 'V' || is_separator(s[i]),
        exists|i: int| 0 <= i < s.len() && !is_separator(s[i]),
    ensures
        spec_parse(s, inv) is Ok,
        word_glyphs(spec_parse(s, inv)->Ok_0) == spec_words(s),
{
    lemma_any_candidates(inv.spec_consonants());
    let i = choose|i: int| 0 <= i < s.len() && !is_separator(s[i]);
    lemma_words_nonempty(s, Seq::empty(), Seq::empty(), i);
    assert(word_glyphs(Seq::empty()) =~= Seq::<Seq<char>>::empty());
    assert(syllable_glyphs(Seq::empty()) =~= Seq::<char>::empty());
    lemma_scan_shape(s, inv, Seq::empty(), Seq::empty());
}

/// Rendering a compiled pattern gives back the pattern's text, with its whitespace
/// normalized: each segment's characters, segments separated by one space.
pub proof fn lemma_render_reproduces_pattern(s: Seq<char>, inv: Inventory)
    requires
        spec_parse(s, inv) is Ok,
    ensures
        word_glyphs(spec_parse(s, inv)->Ok_0) == spec_words(s),
        spec_join(word_glyphs(spec_parse(s, inv)->Ok_0)) == normalized(s),
{
    assert(word_glyphs(Seq::empty()) =~= Seq::<Seq<char>>::empty());
    assert(syllable_glyphs(Seq::empty()) =~= Seq::<char>::empty());
    lemma_scan_shape(s, inv, Seq::empty(), Seq::empty());
}

proof fn lemma_scan_blank(s: Seq<char>, inv: Inventory, done: Seq<Seq<(char, Seq<Phoneme>)>>)
    requires
        forall|i: int| 0 <= i < s.len() ==> is_separator(s[i]),
    ensures
        spec_scan(s, inv, done, Seq::empty()) == (if done.len() == 0 {
            Err::<Seq<Seq<(char, Seq<Phoneme>)>>, ParseError>(ParseError::NoInput)
        } else {
            Ok(done)
        }),
    decreases s.len(),
{
    if s.len() > 0 {
        assert(is_separator(s[0]));
        assert forall|i: int| 0 <= i < s.drop_first().len() implies is_separator(
            s.drop_first()[i],
        ) by {
            assert(s.drop_first()[i] == s[i + 1]);
        }
        lemma_scan_blank(s.drop_first(), inv, done);
    }
}

/// A pattern that is empty or holds only whitespace compiles to no generator: it fails with
/// `NoInput`.
pub proof fn lemma_blank_pattern(s: Seq<char>, inv: Inventory)
    requires
        forall|i: int| 0 <= i < s.len() ==> is_separator(s[i]),
    ensures
        spec_parse(s, inv) == Err::<Seq<Seq<(char, Seq<Phoneme>)>>, ParseError>(
            ParseError::NoInput,
        ),
{
    lemma_scan_blank(s, inv, Seq::empty());
}

proof fn lemma_scan_error(
    s: Seq<char>,
    inv: Inventory,
    done: Seq<Seq<(char, Seq<Phoneme>)>>,
    cur: Seq<(char, Seq<Phoneme>)>,
    i: int,
)
    requires
        0 <= i < s.len(),
        !is_separator(s[i]),
        spec_slot(s[i], inv) is Err,
        forall|j: int| 0 <= j < i ==> is_separator(s[j]) || spec_slot(s[j], inv) is Ok,
    ensures
        spec_scan(s, inv, done, cur) == Err::<Seq<Seq<(char, Seq<Phoneme>)>>, ParseError>(
            spec_slot(s[i], inv)->Err_0,
        ),
    decreases s.len(),
{
    if i > 0 {
        assert(is_separator(s[0]) || spec_slot(s[0], inv) is Ok);
        assert forall|j: int| 0 <= j < i - 1 implies is_separator(s.drop_first()[j]) || spec_slot(
            s.drop_first()[j],
            inv,
        ) is Ok by {
            assert(s.drop_first()[j] == s[j + 1]);
        }
        assert(s.drop_first()[i - 1] == s[i]);
        if is_separator(s[0]) {
            lemma_scan_error(s.drop_first(), inv, close_segment(done, cur), Seq::empty(), i - 1);
        } else {
            let cands = spec_slot(s[0], inv)->Ok_0;
            lemma_scan_error(s.drop_first(), inv, done, cur.push((s[0], cands)), i - 1);
        }
    }
}

/// A pattern that holds a character outside the grammar (not whitespace, `C`, `V`, a place or
/// manner letter, or a group bracket) fails with `UnknownCharacter` naming that character,
/// when every character before it compiles.
pub proof fn lemma_unknown_character(s: Seq<char>, inv: Inventory, i: int)
    requires
        0 <= i < s.len(),
        !is_separator(s[i]),
        s[i] != 'C' && s[i] != 'V' && s[i] != '[' && s[i] != '(',
        Place::spec_from_letter(s[i]) is None,
        Manner::spec_from_letter(s[i]) is None,
        forall|j: int| 0 <= j < i ==> is_separator(s[j]) || spec_slot(s[j], inv) is Ok,
    ensures
        spec_parse(s, inv) == Err::<Seq<Seq<(char, Seq<Phoneme>)>>, ParseError>(
            ParseError::UnknownCharacter(s[i]),
        ),
{
    lemma_scan_error(s, inv, Seq::empty(), Seq::empty(), i);
}


/// Whether `word` could come from one of the compiled patterns `patterns`.
pub open spec fn fits_one_of(word: Seq<Syllable>, patterns: Seq<WordGenerator>) -> bool {
    exists|k: int| 0 <= k < patterns.len() && fits(word, #[trigger] patterns[k]@)
}

/// Draws `count` words, each from a pattern chosen uniformly at random among `patterns`.
pub fn generate_batch(
    patterns: &[WordGenerator],
    count: usize,
    rng: &mut rand::rngs::StdRng,
) -> (r: Vec<Vec<Syllable>>)
    requires
        patterns@.len() > 0,
    ensures
        r@.len() == count,
        forall|n: int| 0 <= n < count ==> fits_one_of((#[trigger] r@[n])@, patterns@),
{
    let mut out: Vec<Vec<Syllable>> = Vec::new();
    let mut n: usize = 0;
    while n < count
        invariant
            patterns@.len() > 0,
            n <= count,
            out@.len() == n,
            forall|q: int| 0 <= q < n ==> fits_one_of((#[trigger] out@[q])@, patterns@),
        decreases count - n,
    {
        let k = index_below(rng, patterns.len());
        let word = patterns[k].generate(rng);
        out.push(word);
        assert(fits(out@[n as int]@, patterns@[k as int]@));
        n = n + 1;
    }
    out
}

} // verus!
