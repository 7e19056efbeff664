use vstd::prelude::*;

verus! {

/// A set of independent parsing flags, kept as the bit values that the
/// CommonMark reference library uses. Every combination of bits is valid.
#[derive(Clone, Copy, Debug, PartialEq, Eq, Structural)]
pub struct ParserOptions {
    pub bits: i32,
}

/// The bits of the empty set: no flag set.
pub const DEFAULT: i32 = 0;

/// Record source positions on nodes. The trees built here carry no
/// positions, so this flag changes none of them.
pub const SOURCEPOS: i32 = 2;

/// Render soft line breaks as hard ones: a rendering flag, which leaves
/// the tree as it is.
pub const HARDBREAKS: i32 = 4;

/// Merge adjacent text nodes; the parser used here never leaves two
/// text nodes side by side that this would merge.
pub const NORMALIZE: i32 = 256;

/// Turn straight quotes, `--` and `...` into typographic punctuation.
pub const SMART: i32 = 1024;

impl ParserOptions {
    /// Whether every bit of `other` is set in `self`.
    pub open spec fn has(self, other: ParserOptions) -> bool {
        self.bits & other.bits == other.bits
    }

    /// Whether smart punctuation is asked for.
    pub open spec fn is_smart(self) -> bool {
        self.bits & SMART == SMART
    }

    /// The option set with no flag.
    pub fn empty() -> (r: ParserOptions)
        ensures
            r.bits == 0,
    {
        ParserOptions { bits: DEFAULT }
    }

    /// The options as bits.
    pub fn bits(&self) -> (r: i32)
        ensures
            r == self.bits,
    {
        self.bits
    }

    /// The options as the integer that the native calling convention takes.
    pub fn raw(&self) -> (r: libc::c_int)
        ensures
            r == self.bits,
    {
        self.bits
    }

    /// Options from any bits; no combination is rejected.
    pub fn from_bits(bits: i32) -> (r: ParserOptions)
        ensures
            r.bits == bits,
    {
        ParserOptions { bits }
    }

    /// Whether every flag of `other` is set in `self`.
    pub fn contains(&self, other: ParserOptions) -> (r: bool)
        ensures
            r == self.has(other),
    {
        self.bits & other.bits == other.bits
    }

    /// The flags of both sets.
    pub fn union(&self, other: ParserOptions) -> (r: ParserOptions)
        ensures
            r.bits == self.bits | other.bits,
    {
        ParserOptions { bits: self.bits | other.bits }
    }

    /// Whether smart punctuation is asked for.
    pub fn smart(&self) -> (r: bool)
        ensures
            r == self.is_smart(),
    {
        self.bits & SMART == SMART
    }

    /// Adds the flags of `other`.
    pub fn insert(&mut self, other: ParserOptions)
        ensures
            final(self).bits == old(self).bits | other.bits,
    {
        self.bits = self.bits | other.bits;
    }
}

} // verus!
