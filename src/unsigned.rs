//! The `Unsigned` capability, implemented for `u8`, `u16`, `u32`, `u64` and `usize`.
use vstd::prelude::*;

verus! {

use vstd::arithmetic::div_mod::{
    lemma_mod_add_multiples_vanish,
    lemma_mod_sub_multiples_vanish,
    lemma_small_mod,
};
use vstd::arithmetic::power2::{pow2, lemma2_to64};
use vstd::layout::unsigned_int_max_values;

/// The number of distinct values of an unsigned type that is `bits` wide.
pub open spec fn modulus(bits: u32) -> nat {
    pow2(bits as nat)
}

/// Reducing a number that is at most one modulus out of range takes one
/// addition or subtraction of the modulus.
proof fn lemma_wrap_once(a: int, m: int)
    requires
        0 < m,
        -m <= a < 2 * m,
    ensures
        a % m == (if a >= m {
            a - m
        } else if a < 0 {
            a + m
        } else {
            a
        }),
{
    if a >= m {
        lemma_mod_add_multiples_vanish(a - m, m);
        lemma_small_mod((a - m) as nat, m as nat);
    } else if a < 0 {
        lemma_mod_sub_multiples_vanish(a + m, m);
        lemma_small_mod((a + m) as nat, m as nat);
    } else {
        lemma_small_mod(a as nat, m as nat);
    }
}

/// An unsigned integer: `u8`, `u16`, `u32`, `u64` or `usize`.
///
/// `value` is the number a value stands for. The plain operators come from
/// the supertraits; the methods below carry contracts over `value`.
pub trait Unsigned: Sized + Copy + core::ops::Add<Output = Self> + core::ops::Sub<
    Output = Self,
> + core::ops::Mul<Output = Self> + core::ops::Div<Output = Self> + core::ops::Rem<Output = Self> {
    /// The width of the type in bits.
    const BITS: u32;

    /// The number that this value stands for.
    spec fn value(self) -> nat;

    /// Every value is below `2^BITS`, and two values with the same number are equal.
    proof fn lemma_value(self, other: Self)
        ensures
            self.value() < modulus(Self::BITS),
            self.value() == other.value() ==> self == other,
    ;

    /// Widens a byte; succeeds for every supported width.
    fn from_u8(byte: u8) -> (r: Self)
        ensures
            r.value() == byte as nat,
    ;

    /// Narrows into the platform's index type. The number must fit there.
    fn to_usize(self) -> (r: usize)
        requires
            self.value() <= usize::MAX,
        ensures
            r as nat == self.value(),
    ;

    /// Addition modulo `2^BITS`.
    fn wrapping_add(self, rhs: Self) -> (r: Self)
        ensures
            r.value() == (self.value() + rhs.value()) % modulus(Self::BITS),
    ;

    /// Subtraction modulo `2^BITS`.
    fn wrapping_sub(self, rhs: Self) -> (r: Self)
        ensures
            r.value() as int == (self.value() - rhs.value()) % (modulus(Self::BITS) as int),
    ;

    /// Multiplication modulo `2^BITS`.
    fn wrapping_mul(self, rhs: Self) -> (r: Self)
        ensures
            r.value() == (self.value() * rhs.value()) % modulus(Self::BITS),
    ;

    /// In-place addition; the sum must fit.
    fn add_assign(&mut self, rhs: Self)
        requires
            old(self).value() + rhs.value() < modulus(Self::BITS),
        ensures
            final(self).value() == old(self).value() + rhs.value(),
    ;

    /// In-place subtraction; the difference must not be negative.
    fn sub_assign(&mut self, rhs: Self)
        requires
            rhs.value() <= old(self).value(),
        ensures
            final(self).value() == old(self).value() - rhs.value(),
    ;

    /// In-place multiplication; the product must fit.
    fn mul_assign(&mut self, rhs: Self)
        requires
            old(self).value() * rhs.value() < modulus(Self::BITS),
        ensures
            final(self).value() == old(self).value() * rhs.value(),
    ;

    /// In-place division, rounding down; the divisor must not be zero.
    fn div_assign(&mut self, rhs: Self)
        requires
            rhs.value() != 0,
        ensures
            final(self).value() == old(self).value() / rhs.value(),
    ;

    /// In-place remainder; the divisor must not be zero.
    fn rem_assign(&mut self, rhs: Self)
        requires
            rhs.value() != 0,
        ensures
            final(self).value() == old(self).value() % rhs.value(),
    ;
}

/// Relies on num_traits::ToPrimitive::to_usize for `u32`: the same number
/// when it is at most `usize::MAX`, `None` otherwise.
#[verifier::external_body]
fn u32_to_usize(v: u32) -> (r: Option<usize>)
    ensures
        r == (if v as nat <= usize::MAX {
            Some(v as usize)
        } else {
            None
        }),
{
    <u32 as num_traits::ToPrimitive>::to_usize(&v)
}

/// Relies on num_traits::ToPrimitive::to_usize for `u64`: the same number
/// when it is at most `usize::MAX`, `None` otherwise.
#[verifier::external_body]
fn u64_to_usize(v: u64) -> (r: Option<usize>)
    ensures
        r == (if v as nat <= usize::MAX {
            Some(v as usize)
        } else {
            None
        }),
{
    <u64 as num_traits::ToPrimitive>::to_usize(&v)
}

impl Unsigned for u8 {
    const BITS: u32 = u8::BITS;

    open spec fn value(self) -> nat {
        self as nat
    }

    proof fn lemma_value(self, other: Self) {
        lemma2_to64();
    }

    fn from_u8(byte: u8) -> (r: Self)
        ensures
            r == byte as u8,
    {
        byte
    }

    fn to_usize(self) -> (r: usize)
        ensures
            r == self as usize,
    {
        self as usize
    }

    fn wrapping_add(self, rhs: Self) -> (r: Self)
        ensures
            r as nat == (self as nat + rhs as nat) % (u8::MAX as nat + 1),
    {
        proof {
            lemma2_to64();
            lemma_wrap_once(self as int + rhs as int, modulus(Self::BITS) as int);
        }
        self.wrapping_add(rhs)
    }

    fn wrapping_sub(self, rhs: Self) -> (r: Self)
        ensures
            r as int == (self as int - rhs as int) % (u8::MAX as int + 1),
    {
        proof {
            lemma2_to64();
            lemma_wrap_once(self as int - rhs as int, modulus(Self::BITS) as int);
        }
        self.wrapping_sub(rhs)
    }

    fn wrapping_mul(self, rhs: Self) -> (r: Self)
        ensures
            r as nat == (self as nat * rhs as nat) % (u8::MAX as nat + 1),
    {
        proof {
            lemma2_to64();
        }
        self.wrapping_mul(rhs)
    }

    fn add_assign(&mut self, rhs: Self)
        ensures
            *final(self) == *old(self) + rhs,
    {
        proof {
            lemma2_to64();
        }
        *self = *self + rhs;
    }

    fn sub_assign(&mut self, rhs: Self)
        ensures
            *final(self) == *old(self) - rhs,
    {
        *self = *self - rhs;
    }

    fn mul_assign(&mut self, rhs: Self)
        ensures
            *final(self) == *old(self) * rhs,
    {
        proof {
            lemma2_to64();
        }
        *self = *self * rhs;
    }

    fn div_assign(&mut self, rhs: Self)
        ensures
            *final(self) == *old(self) / rhs,
    {
        *self = *self / rhs;
    }

    fn rem_assign(&mut self, rhs: Self)
        ensures
            *final(self) == *old(self) % rhs,
    {
        *self = *self % rhs;
    }
}

impl Unsigned for u16 {
    const BITS: u32 = u16::BITS;

    open spec fn value(self) -> nat {
        self as nat
    }

    proof fn lemma_value(self, other: Self) {
        lemma2_to64();
    }

    fn from_u8(byte: u8) -> (r: Self)
        ensures
            r == byte as u16,
    {
        byte as u16
    }

    fn to_usize(self) -> (r: usize)
        ensures
            r == self as usize,
    {
        self as usize
    }

    fn wrapping_add(self, rhs: Self) -> (r: Self)
        ensures
            r as nat == (self as nat + rhs as nat) % (u16::MAX as nat + 1),
    {
        proof {
            lemma2_to64();
            lemma_wrap_once(self as int + rhs as int, modulus(Self::BITS) as int);
        }
        self.wrapping_add(rhs)
    }

    fn wrapping_sub(self, rhs: Self) -> (r: Self)
        ensures
            r as int == (self as int - rhs as int) % (u16::MAX as int + 1),
    {
        proof {
            lemma2_to64();
            lemma_wrap_once(self as int - rhs as int, modulus(Self::BITS) as int);
        }
        self.wrapping_sub(rhs)
    }

    fn wrapping_mul(self, rhs: Self) -> (r: Self)
        ensures
            r as nat == (self as nat * rhs as nat) % (u16::MAX as nat + 1),
    {
        proof {
            lemma2_to64();
        }
        self.wrapping_mul(rhs)
    }

    fn add_assign(&mut self, rhs: Self)
        ensures
            *final(self) == *old(self) + rhs,
    {
        proof {
            lemma2_to64();
        }
        *self = *self + rhs;
    }

    fn sub_assign(&mut self, rhs: Self)
        ensures
            *final(self) == *old(self) - rhs,
    {
        *self = *self - rhs;
    }

    fn mul_assign(&mut self, rhs: Self)
        ensures
            *final(self) == *old(self) * rhs,
    {
        proof {
            lemma2_to64();
        }
        *self = *self * rhs;
    }

    fn div_assign(&mut self, rhs: Self)
        ensures
            *final(self) == *old(self) / rhs,
    {
        *self = *self / rhs;
    }

    fn rem_assign(&mut self, rhs: Self)
        ensures
            *final(self) == *old(self) % rhs,
    {
        *self = *self % rhs;
    }
}

impl Unsigned for u32 {
    const BITS: u32 = u32::BITS;

    open spec fn value(self) -> nat {
        self as nat
    }

    proof fn lemma_value(self, other: Self) {
        lemma2_to64();
    }

    fn from_u8(byte: u8) -> (r: Self)
        ensures
            r == byte as u32,
    {
        byte as u32
    }

    fn to_usize(self) -> (r: usize)
        ensures
            r == self as usize,
    {
        u32_to_usize(self).unwrap()
    }

    fn wrapping_add(self, rhs: Self) -> (r: Self)
        ensures
            r as nat == (self as nat + rhs as nat) % (u32::MAX as nat + 1),
    {
        proof {
            lemma2_to64();
            lemma_wrap_once(self as int + rhs as int, modulus(Self::BITS) as int);
        }
        self.wrapping_add(rhs)
    }

    fn wrapping_sub(self, rhs: Self) -> (r: Self)
        ensures
            r as int == (self as int - rhs as int) % (u32::MAX as int + 1),
    {
        proof {
            lemma2_to64();
            lemma_wrap_once(self as int - rhs as int, modulus(Self::BITS) as int);
        }
        self.wrapping_sub(rhs)
    }

    fn wrapping_mul(self, rhs: Self) -> (r: Self)
        ensures
            r as nat == (self as nat * rhs as nat) % (u32::MAX as nat + 1),
    {
        proof {
            lemma2_to64();
        }
        self.wrapping_mul(rhs)
    }

    fn add_assign(&mut self, rhs: Self)
        ensures
            *final(self) == *old(self) + rhs,
    {
        proof {
            lemma2_to64();
        }
        *self = *self + rhs;
    }

    fn sub_assign(&mut self, rhs: Self)
        ensures
            *final(self) == *old(self) - rhs,
    {
        *self = *self - rhs;
    }

    fn mul_assign(&mut self, rhs: Self)
        ensures
            *final(self) == *old(self) * rhs,
    {
        proof {
            lemma2_to64();
        }
        *self = *self * rhs;
    }

    fn div_assign(&mut self, rhs: Self)
        ensures
            *final(self) == *old(self) / rhs,
    {
        *self = *self / rhs;
    }

    fn rem_assign(&mut self, rhs: Self)
        ensures
            *final(self) == *old(self) % rhs,
    {
        *self = *self % rhs;
    }
}

impl Unsigned for u64 {
    const BITS: u32 = u64::BITS;

    open spec fn value(self) -> nat {
        self as nat
    }

    proof fn lemma_value(self, other: Self) {
        lemma2_to64();
    }

    fn from_u8(byte: u8) -> (r: Self)
        ensures
            r == byte as u64,
    {
        byte as u64
    }

    fn to_usize(self) -> (r: usize)
        ensures
            r == self as usize,
    {
        u64_to_usize(self).unwrap()
    }

    fn wrapping_add(self, rhs: Self) -> (r: Self)
        ensures
            r as nat == (self as nat + rhs as nat) % (u64::MAX as nat + 1),
    {
        proof {
            lemma2_to64();
            lemma_wrap_once(self as int + rhs as int, modulus(Self::BITS) as int);
        }
        self.wrapping_add(rhs)
    }

    fn wrapping_sub(self, rhs: Self) -> (r: Self)
        ensures
            r as int == (self as int - rhs as int) % (u64::MAX as int + 1),
    {
        proof {
            lemma2_to64();
            lemma_wrap_once(self as int - rhs as int, modulus(Self::BITS) as int);
        }
        self.wrapping_sub(rhs)
    }

    fn wrapping_mul(self, rhs: Self) -> (r: Self)
        ensures
            r as nat == (self as nat * rhs as nat) % (u64::MAX as nat + 1),
    {
        proof {
            lemma2_to64();
        }
        self.wrapping_mul(rhs)
    }

    fn add_assign(&mut self, rhs: Self)
        ensures
            *final(self) == *old(self) + rhs,
    {
        proof {
            lemma2_to64();
        }
        *self = *self + rhs;
    }

    fn sub_assign(&mut self, rhs: Self)
        ensures
            *final(self) == *old(self) - rhs,
    {
        *self = *self - rhs;
    }

    fn mul_assign(&mut self, rhs: Self)
        ensures
            *final(self) == *old(self) * rhs,
    {
        proof {
            lemma2_to64();
        }
        *self = *self * rhs;
    }

    fn div_assign(&mut self, rhs: Self)
        ensures
            *final(self) == *old(self) / rhs,
    {
        *self = *self / rhs;
    }

    fn rem_assign(&mut self, rhs: Self)
        ensures
            *final(self) == *old(self) % rhs,
    {
        *self = *self % rhs;
    }
}

impl Unsigned for usize {
    const BITS: u32 = usize::BITS;

    open spec fn value(self) -> nat {
        self as nat
    }

    proof fn lemma_value(self, other: Self) {
        unsigned_int_max_values();
    }

    fn from_u8(byte: u8) -> (r: Self)
        ensures
            r == byte as usize,
    {
        byte as usize
    }

    fn to_usize(self) -> (r: usize)
        ensures
            r == self as usize,
    {
        self
    }

    fn wrapping_add(self, rhs: Self) -> (r: Self)
        ensures
            r as nat == (self as nat + rhs as nat) % (usize::MAX as nat + 1),
    {
        proof {
            unsigned_int_max_values();
            lemma_wrap_once(self as int + rhs as int, modulus(Self::BITS) as int);
        }
        self.wrapping_add(rhs)
    }

    fn wrapping_sub(self, rhs: Self) -> (r: Self)
        ensures
            r as int == (self as int - rhs as int) % (usize::MAX as int + 1),
    {
        proof {
            unsigned_int_max_values();
            lemma_wrap_once(self as int - rhs as int, modulus(Self::BITS) as int);
        }
        self.wrapping_sub(rhs)
    }

    fn wrapping_mul(self, rhs: Self) -> (r: Self)
        ensures
            r as nat == (self as nat * rhs as nat) % (usize::MAX as nat + 1),
    {
        proof {
            unsigned_int_max_values();
        }
        self.wrapping_mul(rhs)
    }

    fn add_assign(&mut self, rhs: Self)
        ensures
            *final(self) == *old(self) + rhs,
    {
        proof {
            unsigned_int_max_values();
        }
        *self = *self + rhs;
    }

    fn sub_assign(&mut self, rhs: Self)
        ensures
            *final(self) == *old(self) - rhs,
    {
        *self = *self - rhs;
    }

    fn mul_assign(&mut self, rhs: Self)
        ensures
            *final(self) == *old(self) * rhs,
    {
        proof {
            unsigned_int_max_values();
        }
        *self = *self * rhs;
    }

    fn div_assign(&mut self, rhs: Self)
        ensures
            *final(self) == *old(self) / rhs,
    {
        *self = *self / rhs;
    }

    fn rem_assign(&mut self, rhs: Self)
        ensures
            *final(self) == *old(self) % rhs,
    {
        *self = *self % rhs;
    }
}

/// `BITS` is each type's native width: 8, 16, 32 and 64 bits, and the
/// pointer width for `usize`; and `2^BITS` is one more than the type's
/// largest value.
pub proof fn lemma_bits_native()
    ensures
        <u8 as Unsigned>::BITS == 8,
        <u16 as Unsigned>::BITS == 16,
        <u32 as Unsigned>::BITS == 32,
        <u64 as Unsigned>::BITS == 64,
        <usize as Unsigned>::BITS == usize::BITS,
        <usize as Unsigned>::BITS == 8 * core::mem::size_of::<usize>(),
        modulus(<u8 as Unsigned>::BITS) == u8::MAX + 1,
        modulus(<u16 as Unsigned>::BITS) == u16::MAX + 1,
        modulus(<u32 as Unsigned>::BITS) == u32::MAX + 1,
        modulus(<u64 as Unsigned>::BITS) == u64::MAX + 1,
        modulus(<usize as Unsigned>::BITS) == usize::MAX + 1,
{
    broadcast use vstd::layout::layout_of_primitives;

    lemma2_to64();
    unsigned_int_max_values();
}

/// Narrowing to `usize` is owed for every value of a type no wider than a
/// pointer: the precondition of `to_usize` always holds there.
pub proof fn lemma_to_usize_total(a: u8, b: u16, c: u32, d: usize)
    ensures
        a.value() <= usize::MAX,
        b.value() <= usize::MAX,
        c.value() <= usize::MAX,
        d.value() <= usize::MAX,
{
}

} // verus!
