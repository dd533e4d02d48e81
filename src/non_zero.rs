//! The `NonZero` capability and the five non-zero unsigned types.
//!
//! Each type holds its plain value in a private field, under a type invariant
//! that the value is not zero; every constructor establishes it, and `get`
//! hands it on to callers.
use vstd::prelude::*;

verus! {

use crate::unsigned::Unsigned;

/// A non-zero unsigned integer: `NonZeroU8`, `NonZeroU16`, `NonZeroU32`,
/// `NonZeroU64` or `NonZeroUsize`.
///
/// `inner` is the plain value held; it is never zero.
pub trait NonZero: Sized + Copy {
    /// The plain unsigned type that is wrapped.
    type U: Unsigned;

    /// The plain value held.
    spec fn inner(self) -> Self::U;

    /// Wraps `val`, or gives `None` when it is zero.
    fn new(val: Self::U) -> (r: Option<Self>)
        ensures
            r is None <==> val.value() == 0,
            r matches Some(n) ==> n.inner() == val,
    ;

    /// Wraps `val` without a check at run time; the caller must know that it
    /// is not zero. Verified callers are held to this by the precondition;
    /// an unverified caller that passes zero breaks the type's guarantee.
    fn new_unchecked(val: Self::U) -> (r: Self)
        requires
            val.value() != 0,
        ensures
            r.inner() == val,
    ;

    /// The plain value held.
    fn get(self) -> (r: Self::U)
        ensures
            r == self.inner(),
            r.value() != 0,
    ;
}

/// A `u8` that is never zero.
#[derive(Clone, Copy, Debug, PartialEq, Eq, Structural, Hash)]
pub struct NonZeroU8 {
    val: u8,
}

impl NonZeroU8 {
    #[verifier::type_invariant]
    spec fn is_nonzero(self) -> bool {
        self.val != 0
    }
}

impl NonZero for NonZeroU8 {
    type U = u8;

    closed spec fn inner(self) -> u8 {
        self.val
    }

    fn new(val: u8) -> (r: Option<Self>)
        ensures
            r is None <==> val == 0,
            r matches Some(n) ==> n.inner() == val,
    {
        if val == 0 {
            None
        } else {
            Some(NonZeroU8 { val })
        }
    }

    fn new_unchecked(val: u8) -> (r: Self)
        ensures
            r.inner() == val,
    {
        NonZeroU8 { val }
    }

    fn get(self) -> (r: u8)
        ensures
            r == self.inner(),
            r != 0,
    {
        proof {
            use_type_invariant(&self);
        }
        self.val
    }
}

/// A `u16` that is never zero.
#[derive(Clone, Copy, Debug, PartialEq, Eq, Structural, Hash)]
pub struct NonZeroU16 {
    val: u16,
}

impl NonZeroU16 {
    #[verifier::type_invariant]
    spec fn is_nonzero(self) -> bool {
        self.val != 0
    }
}

impl NonZero for NonZeroU16 {
    type U = u16;

    closed spec fn inner(self) -> u16 {
        self.val
    }

    fn new(val: u16) -> (r: Option<Self>)
        ensures
            r is None <==> val == 0,
            r matches Some(n) ==> n.inner() == val,
    {
        if val == 0 {
            None
        } else {
            Some(NonZeroU16 { val })
        }
    }

    fn new_unchecked(val: u16) -> (r: Self)
        ensures
            r.inner() == val,
    {
        NonZeroU16 { val }
    }

    fn get(self) -> (r: u16)
        ensures
            r == self.inner(),
            r != 0,
    {
        proof {
            use_type_invariant(&self);
        }
        self.val
    }
}

/// A `u32` that is never zero.
#[derive(Clone, Copy, Debug, PartialEq, Eq, Structural, Hash)]
pub struct NonZeroU32 {
    val: u32,
}

impl NonZeroU32 {
    #[verifier::type_invariant]
    spec fn is_nonzero(self) -> bool {
        self.val != 0
    }
}

impl NonZero for NonZeroU32 {
    type U = u32;

    closed spec fn inner(self) -> u32 {
        self.val
    }

    fn new(val: u32) -> (r: Option<Self>)
        ensures
            r is None <==> val == 0,
            r matches Some(n) ==> n.inner() == val,
    {
        if val == 0 {
            None
        } else {
            Some(NonZeroU32 { val })
        }
    }

    fn new_unchecked(val: u32) -> (r: Self)
        ensures
            r.inner() == val,
    {
        NonZeroU32 { val }
    }

    fn get(self) -> (r: u32)
        ensures
            r == self.inner(),
            r != 0,
    {
        proof {
            use_type_invariant(&self);
        }
        self.val
    }
}

/// A `u64` that is never zero.
#[derive(Clone, Copy, Debug, PartialEq, Eq, Structural, Hash)]
pub struct NonZeroU64 {
    val: u64,
}

impl NonZeroU64 {
    #[verifier::type_invariant]
    spec fn is_nonzero(self) -> bool {
        self.val != 0
    }
}

impl NonZero for NonZeroU64 {
    type U = u64;

    closed spec fn inner(self) -> u64 {
        self.val
    }

    fn new(val: u64) -> (r: Option<Self>)
        ensures
            r is None <==> val == 0,
            r matches Some(n) ==> n.inner() == val,
    {
        if val == 0 {
            None
        } else {
            Some(NonZeroU64 { val })
        }
    }

    fn new_unchecked(val: u64) -> (r: Self)
        ensures
            r.inner() == val,
    {
        NonZeroU64 { val }
    }

    fn get(self) -> (r: u64)
        ensures
            r == self.inner(),
            r != 0,
    {
        proof {
            use_type_invariant(&self);
        }
        self.val
    }
}

/// A `usize` that is never zero.
#[derive(Clone, Copy, Debug, PartialEq, Eq, Structural, Hash)]
pub struct NonZeroUsize {
    val: usize,
}

impl NonZeroUsize {
    #[verifier::type_invariant]
    spec fn is_nonzero(self) -> bool {
        self.val != 0
    }
}

impl NonZero for NonZeroUsize {
    type U = usize;

    closed spec fn inner(self) -> usize {
        self.val
    }

    fn new(val: usize) -> (r: Option<Self>)
        ensures
            r is None <==> val == 0,
            r matches Some(n) ==> n.inner() == val,
    {
        if val == 0 {
            None
        } else {
            Some(NonZeroUsize { val })
        }
    }

    fn new_unchecked(val: usize) -> (r: Self)
        ensures
            r.inner() == val,
    {
        NonZeroUsize { val }
    }

    fn get(self) -> (r: usize)
        ensures
            r == self.inner(),
            r != 0,
    {
        proof {
            use_type_invariant(&self);
        }
        self.val
    }
}

} // verus!
