//! The calls this library makes into other crates and into parts of std that have no
//! specification of their own. Each item states what the called function is relied on for.

use crate::gen::{PhonemeGenerator, SyllableGenerator};
use crate::phone::Phoneme;
use rand::{Rng, RngCore};
use vstd::prelude::*;

verus! {

/// A short sequence of phonemes kept inline, in a `smallvec::SmallVec<[Phoneme; 8]>`.
#[derive(Debug)]
#[verifier::external_body]
pub struct PhonemeVec {
    inner: smallvec::SmallVec<[Phoneme; 8]>,
}

/// The phonemes that a `PhonemeVec` holds, in order.
pub uninterp spec fn phonemes_of(v: PhonemeVec) -> Seq<Phoneme>;

impl PhonemeVec {
    /// Relies on `SmallVec::new`: the new vector is empty.
    #[verifier::external_body]
    pub fn new() -> (r: PhonemeVec)
        ensures
            phonemes_of(r) == Seq::<Phoneme>::empty(),
    {
        PhonemeVec { inner: smallvec::SmallVec::new() }
    }

    /// Relies on `SmallVec::from_slice`: the vector holds a copy of the slice's items.
    #[verifier::external_body]
    pub fn from_slice(s: &[Phoneme]) -> (r: PhonemeVec)
        ensures
            phonemes_of(r) == s@,
    {
        PhonemeVec { inner: smallvec::SmallVec::from_slice(s) }
    }

    /// Relies on `SmallVec::push`: the item is appended at the end. It panics only when the
    /// length would overflow `usize`.
    #[verifier::external_body]
    pub fn push(&mut self, p: Phoneme)
        requires
            phonemes_of(*old(self)).len() < usize::MAX,
        ensures
            phonemes_of(*final(self)) == phonemes_of(*old(self)).push(p),
    {
        self.inner.push(p)
    }

    /// Relies on `SmallVec::as_slice`: the slice shows the items in order.
    #[verifier::external_body]
    pub fn as_slice(&self) -> (r: &[Phoneme])
        ensures
            r@ == phonemes_of(*self),
    {
        self.inner.as_slice()
    }
}

/// A short sequence of slots kept inline, in a `smallvec::SmallVec<[PhonemeGenerator; 4]>`.
#[verifier::external_body]
pub struct SlotVec {
    inner: smallvec::SmallVec<[PhonemeGenerator; 4]>,
}

/// The slots that a `SlotVec` holds, in order.
pub uninterp spec fn slots_of(v: SlotVec) -> Seq<PhonemeGenerator>;

impl SlotVec {
    /// Relies on `SmallVec::new`: the new vector is empty.
    #[verifier::external_body]
    pub fn new() -> (r: SlotVec)
        ensures
            slots_of(r) == Seq::<PhonemeGenerator>::empty(),
    {
        SlotVec { inner: smallvec::SmallVec::new() }
    }

    /// Relies on `SmallVec::push`: the item is appended at the end. It panics only when the
    /// length would overflow `usize`.
    #[verifier::external_body]
    pub fn push(&mut self, x: PhonemeGenerator)
        requires
            slots_of(*old(self)).len() < usize::MAX,
        ensures
            slots_of(*final(self)) == slots_of(*old(self)).push(x),
    {
        self.inner.push(x)
    }

    /// Relies on `SmallVec::as_slice`: the slice shows the items in order.
    #[verifier::external_body]
    pub fn as_slice(&self) -> (r: &[PhonemeGenerator])
        ensures
            r@ == slots_of(*self),
    {
        self.inner.as_slice()
    }
}

/// A short sequence of syllable shapes kept inline, in a `smallvec::SmallVec<[SyllableGenerator; 4]>`.
#[verifier::external_body]
pub struct ShapeVec {
    inner: smallvec::SmallVec<[SyllableGenerator; 4]>,
}

/// The syllable shapes that a `ShapeVec` holds, in order.
pub uninterp spec fn shapes_of(v: ShapeVec) -> Seq<SyllableGenerator>;

impl ShapeVec {
    /// Relies on `SmallVec::new`: the new vector is empty.
    #[verifier::external_body]
    pub fn new() -> (r: ShapeVec)
        ensures
            shapes_of(r) == Seq::<SyllableGenerator>::empty(),
    {
        ShapeVec { inner: smallvec::SmallVec::new() }
    }

    /// Relies on `SmallVec::push`: the item is appended at the end. It panics only when the
    /// length would overflow `usize`.
    #[verifier::external_body]
    pub fn push(&mut self, x: SyllableGenerator)
        requires
            shapes_of(*old(self)).len() < usize::MAX,
        ensures
            shapes_of(*final(self)) == shapes_of(*old(self)).push(x),
    {
        self.inner.push(x)
    }

    /// Relies on `SmallVec::as_slice`: the slice shows the items in order.
    #[verifier::external_body]
    pub fn as_slice(&self) -> (r: &[SyllableGenerator])
        ensures
            r@ == shapes_of(*self),
    {
        self.inner.as_slice()
    }
}

/// Relies on `String::push`: the character is appended at the end of the string.
#[verifier::external_body]
pub fn push_char(s: &mut String, c: char)
    ensures
        final(s)@ == old(s)@.push(c),
{
    s.push(c)
}

/// `rand::rngs::StdRng`, the seedable random source that sampling draws from, carried as an
/// opaque value.
#[verifier::external_type_specification]
#[verifier::external_body]
pub struct ExStdRng(rand::rngs::StdRng);

/// Relies on `RngCore::next_u64` of `rand::rngs::StdRng`: the next random number. Nothing is
/// promised of its value.
#[verifier::external_body]
pub fn next_u64(rng: &mut rand::rngs::StdRng) -> (r: u64) {
    rng.next_u64()
}

/// Relies on `Rng::gen_range` of `rand::rngs::StdRng` over `0..n`: a number in the half-open
/// range. It panics when the range is empty.
#[verifier::external_body]
pub fn index_below(rng: &mut rand::rngs::StdRng, n: usize) -> (r: usize)
    requires
        n > 0,
    ensures
        r < n,
{
    rng.gen_range(0..n)
}

} // verus!
