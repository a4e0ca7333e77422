use vstd::prelude::*;

verus! {

/// Bit of [`LockState`] that marks a cell as detached from its store.
pub const ORPHANED: u8 = 1;

/// Bit of [`LockState`] that marks a cell whose payload has been constructed.
pub const IS_INIT: u8 = 2;

/// Every bit that a [`LockState`] may hold.
pub const ALL_FLAGS: u8 = 3;

/// The flag byte of a cell: a set over the two flags `ORPHANED` and `IS_INIT`.
#[derive(Copy, Clone, Debug, PartialEq, Eq, Structural)]
pub struct LockState {
    bits: u8,
}

impl View for LockState {
    type V = u8;

    /// The raw bits.
    closed spec fn view(&self) -> u8 {
        self.bits
    }
}

impl LockState {
    /// No bit outside the two known flags is set.
    pub open spec fn wf(self) -> bool {
        self@ & !ALL_FLAGS == 0
    }

    /// Whether the `ORPHANED` bit is set.
    pub open spec fn is_orphaned(self) -> bool {
        self@ & ORPHANED == ORPHANED
    }

    /// Whether the `IS_INIT` bit is set.
    pub open spec fn is_init(self) -> bool {
        self@ & IS_INIT == IS_INIT
    }

    /// The empty flag set.
    pub fn empty() -> (flags: LockState)
        ensures
            flags@ == 0,
            flags.wf(),
            !flags.is_orphaned(),
            !flags.is_init(),
    {
        assert(0u8 & !3u8 == 0 && 0u8 & 1u8 != 1u8 && 0u8 & 2u8 != 2u8) by (bit_vector);
        LockState { bits: 0 }
    }

    /// The set that holds `ORPHANED` alone.
    pub fn orphaned() -> (flags: LockState)
        ensures
            flags@ == ORPHANED,
            flags.wf(),
            flags.is_orphaned(),
            !flags.is_init(),
    {
        assert(1u8 & !3u8 == 0 && 1u8 & 1u8 == 1u8 && 1u8 & 2u8 != 2u8) by (bit_vector);
        LockState { bits: ORPHANED }
    }

    /// The set that holds `IS_INIT` alone.
    pub fn initialized() -> (flags: LockState)
        ensures
            flags@ == IS_INIT,
            flags.wf(),
            flags.is_init(),
            !flags.is_orphaned(),
    {
        assert(2u8 & !3u8 == 0 && 2u8 & 2u8 == 2u8 && 2u8 & 1u8 != 1u8) by (bit_vector);
        LockState { bits: IS_INIT }
    }

    /// Builds a flag set from raw bits, dropping every unknown bit.
    pub fn from_bits_truncate(bits: u8) -> (flags: LockState)
        ensures
            flags@ == bits & ALL_FLAGS,
            flags.wf(),
            flags.is_orphaned() == (bits & ORPHANED == ORPHANED),
            flags.is_init() == (bits & IS_INIT == IS_INIT),
    {
        assert((bits & 3u8) & !3u8 == 0) by (bit_vector);
        assert(((bits & 3u8) & 1u8 == 1u8) == (bits & 1u8 == 1u8)) by (bit_vector);
        assert(((bits & 3u8) & 2u8 == 2u8) == (bits & 2u8 == 2u8)) by (bit_vector);
        LockState { bits: bits & ALL_FLAGS }
    }

    /// The raw bits of the set.
    pub fn bits(&self) -> (bits: u8)
        ensures
            bits == self@,
    {
        self.bits
    }

    /// Whether every flag of `other` is also in `self`.
    pub fn contains(&self, other: LockState) -> (found: bool)
        ensures
            found == (self@ & other@ == other@),
    {
        self.bits & other.bits == other.bits
    }

    /// Adds the flags of `other` to `self`.
    pub fn insert(&mut self, other: LockState)
        ensures
            final(self)@ == old(self)@ | other@,
            old(self).wf() && other.wf() ==> final(self).wf(),
            final(self).is_orphaned() == (old(self).is_orphaned() || other.is_orphaned()),
            final(self).is_init() == (old(self).is_init() || other.is_init()),
    {
        let a: u8 = self.bits;
        let b: u8 = other.bits;
        assert(a & !3u8 == 0 && b & !3u8 == 0 ==> (a | b) & !3u8 == 0) by (bit_vector);
        assert(((a | b) & 1u8 == 1u8) == (a & 1u8 == 1u8 || b & 1u8 == 1u8)) by (bit_vector);
        assert(((a | b) & 2u8 == 2u8) == (a & 2u8 == 2u8 || b & 2u8 == 2u8)) by (bit_vector);
        self.bits = a | b;
    }

    /// Takes the flags of `other` out of `self`.
    pub fn remove(&mut self, other: LockState)
        ensures
            final(self)@ == old(self)@ & !other@,
            old(self).wf() ==> final(self).wf(),
            final(self).is_orphaned() == (old(self).is_orphaned() && !other.is_orphaned()),
            final(self).is_init() == (old(self).is_init() && !other.is_init()),
    {
        let a: u8 = self.bits;
        let b: u8 = other.bits;
        assert(a & !3u8 == 0 ==> (a & !b) & !3u8 == 0) by (bit_vector);
        assert(((a & !b) & 1u8 == 1u8) == (a & 1u8 == 1u8 && !(b & 1u8 == 1u8))) by (bit_vector);
        assert(((a & !b) & 2u8 == 2u8) == (a & 2u8 == 2u8 && !(b & 2u8 == 2u8))) by (bit_vector);
        self.bits = a & !b;
    }
}

} // verus!
