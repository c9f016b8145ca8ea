//! Per-class capability flags: an immutable-after-construction bit set
//! recording boolean capabilities of a class (heap-allocated, subclassable,
//! has an instance dictionary).

use vstd::prelude::*;

verus! {

/// Bit for classes allocated on the heap; also the default flag set for a
/// newly defined class.
pub const HEAPTYPE: u64 = 1u64 << 9;

/// Bit for classes that may be subclassed.
pub const BASETYPE: u64 = 1u64 << 10;

/// Bit for classes whose instances carry an attribute dictionary.
pub const HAS_DICT: u64 = 1u64 << 40;

/// Debug-only marker recording that the flag set was built explicitly rather
/// than defaulted.
pub const CREATED_WITH_FLAGS: u64 = 1u64 << 63;

/// A class's capability flags.  The value never changes once the class is
/// constructed.
#[derive(Clone, Copy, Debug, PartialEq, Eq, Structural)]
pub struct PyTpFlags {
    pub bits: u64,
}

impl PyTpFlags {
    /// Builds a flag set from raw bits.
    pub fn from_bits(bits: u64) -> (r: Self)
        ensures
            r.bits == bits,
    {
        PyTpFlags { bits }
    }

    /// The flag set of a newly defined class: `HEAPTYPE` alone.
    pub fn default_flags() -> (r: Self)
        ensures
            r.bits == HEAPTYPE,
    {
        PyTpFlags { bits: HEAPTYPE }
    }

    /// True exactly when every bit of `flag` is set in `self`.
    pub fn has_feature(self, flag: Self) -> (r: bool)
        ensures
            r == (self.bits & flag.bits == flag.bits),
    {
        self.bits & flag.bits == flag.bits
    }

    /// True exactly when the explicit-construction marker bit is set.
    pub fn is_created_with_flags(self) -> (r: bool)
        ensures
            r == (self.bits & CREATED_WITH_FLAGS == CREATED_WITH_FLAGS),
    {
        self.bits & CREATED_WITH_FLAGS == CREATED_WITH_FLAGS
    }
}

impl Default for PyTpFlags {
    /// A newly defined class gets `HEAPTYPE` alone.
    fn default() -> (r: Self)
        ensures
            r.bits == HEAPTYPE,
    {
        PyTpFlags { bits: HEAPTYPE }
    }
}

} // verus!
