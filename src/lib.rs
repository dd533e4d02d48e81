//! Capability traits over the fixed-width unsigned integers and their
//! non-zero counterparts, with contracts stated over mathematical integers.
pub mod non_zero;
pub mod unsigned;

pub use non_zero::{NonZero, NonZeroU16, NonZeroU32, NonZeroU64, NonZeroU8, NonZeroUsize};
pub use unsigned::Unsigned;

// General-purpose numeric traits, so that generic callers need no separate dependency.
pub use num_traits::{
    Bounded, FromPrimitive, One, PrimInt, ToPrimitive, WrappingAdd, WrappingMul, WrappingSub,
};
