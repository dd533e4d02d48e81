use uint_family::Unsigned;

#[test]
fn from_u8_widens_every_byte() {
    for b in 0..=255u8 {
        assert_eq!(<u8 as Unsigned>::from_u8(b), b);
        assert_eq!(<u16 as Unsigned>::from_u8(b), b as u16);
        assert_eq!(<u32 as Unsigned>::from_u8(b), b as u32);
        assert_eq!(<u64 as Unsigned>::from_u8(b), b as u64);
        assert_eq!(<usize as Unsigned>::from_u8(b), b as usize);
    }
}

#[test]
fn byte_200_then_wrapping_add_100() {
    let v = <u8 as Unsigned>::from_u8(200);
    assert_eq!(v, 200);
    assert_eq!(<u8 as Unsigned>::wrapping_add(v, 100), 44);
}

#[test]
fn wrapping_add_wraps_at_max() {
    assert_eq!(<u8 as Unsigned>::wrapping_add(u8::MAX, 1), 0);
    assert_eq!(<u16 as Unsigned>::wrapping_add(u16::MAX, 1), 0);
    assert_eq!(<u32 as Unsigned>::wrapping_add(u32::MAX, 1), 0);
    assert_eq!(<u64 as Unsigned>::wrapping_add(u64::MAX, 1), 0);
    assert_eq!(<usize as Unsigned>::wrapping_add(usize::MAX, 1), 0);
    assert_eq!(<u16 as Unsigned>::wrapping_add(u16::MAX, u16::MAX), u16::MAX - 1);
    assert_eq!(<u32 as Unsigned>::wrapping_add(3, 4), 7);
}

#[test]
fn wrapping_sub_wraps_below_zero() {
    assert_eq!(<u8 as Unsigned>::wrapping_sub(0, 1), u8::MAX);
    assert_eq!(<u16 as Unsigned>::wrapping_sub(0, 1), u16::MAX);
    assert_eq!(<u32 as Unsigned>::wrapping_sub(0, 1), u32::MAX);
    assert_eq!(<u64 as Unsigned>::wrapping_sub(0, 1), u64::MAX);
    assert_eq!(<usize as Unsigned>::wrapping_sub(0, 1), usize::MAX);
    assert_eq!(<u8 as Unsigned>::wrapping_sub(10, 200), 66);
    assert_eq!(<u64 as Unsigned>::wrapping_sub(10, 3), 7);
}

#[test]
fn wrapping_mul_reduces_modulo_width() {
    assert_eq!(<u8 as Unsigned>::wrapping_mul(16, 16), 0);
    assert_eq!(<u8 as Unsigned>::wrapping_mul(u8::MAX, 2), u8::MAX - 1);
    assert_eq!(<u16 as Unsigned>::wrapping_mul(u16::MAX, 2), u16::MAX - 1);
    assert_eq!(<u32 as Unsigned>::wrapping_mul(u32::MAX, 2), u32::MAX - 1);
    assert_eq!(<u64 as Unsigned>::wrapping_mul(u64::MAX, 2), u64::MAX - 1);
    assert_eq!(<usize as Unsigned>::wrapping_mul(usize::MAX, 2), usize::MAX - 1);
    assert_eq!(<u32 as Unsigned>::wrapping_mul(6, 7), 42);
}

#[test]
fn to_usize_keeps_the_number() {
    assert_eq!(<u8 as Unsigned>::to_usize(u8::MAX), 255usize);
    assert_eq!(<u16 as Unsigned>::to_usize(u16::MAX), 65535usize);
    assert_eq!(<u32 as Unsigned>::to_usize(u32::MAX), u32::MAX as usize);
    assert_eq!(<u32 as Unsigned>::to_usize(12345), 12345usize);
    assert_eq!(<u64 as Unsigned>::to_usize(98765), 98765usize);
    assert_eq!(<u64 as Unsigned>::to_usize(usize::MAX as u64), usize::MAX);
    assert_eq!(<usize as Unsigned>::to_usize(usize::MAX), usize::MAX);
    assert_eq!(<u8 as Unsigned>::to_usize(0), 0usize);
}

#[test]
fn bits_match_native_widths() {
    assert_eq!(<u8 as Unsigned>::BITS, 8);
    assert_eq!(<u16 as Unsigned>::BITS, 16);
    assert_eq!(<u32 as Unsigned>::BITS, 32);
    assert_eq!(<u64 as Unsigned>::BITS, 64);
    assert_eq!(<usize as Unsigned>::BITS, usize::BITS);
    assert_eq!(<usize as Unsigned>::BITS as usize, 8 * std::mem::size_of::<usize>());
}

#[test]
fn assign_forms_compute_in_place() {
    let mut a: u8 = 200;
    Unsigned::add_assign(&mut a, 55);
    assert_eq!(a, 255);
    Unsigned::sub_assign(&mut a, 5);
    assert_eq!(a, 250);
    let mut b: u32 = 300;
    Unsigned::mul_assign(&mut b, 7);
    assert_eq!(b, 2100);
    Unsigned::div_assign(&mut b, 8);
    assert_eq!(b, 262);
    Unsigned::rem_assign(&mut b, 10);
    assert_eq!(b, 2);
    let mut c: u64 = u64::MAX;
    Unsigned::div_assign(&mut c, u64::MAX);
    assert_eq!(c, 1);
    let mut d: usize = 17;
    Unsigned::rem_assign(&mut d, 17);
    assert_eq!(d, 0);
    let mut e: u16 = 0;
    Unsigned::add_assign(&mut e, u16::MAX);
    assert_eq!(e, u16::MAX);
}

#[test]
fn operators_from_supertraits() {
    fn combine<T: Unsigned>(a: T, b: T) -> (T, T, T, T, T) {
        (a + b, a - b, a * b, a / b, a % b)
    }
    assert_eq!(combine(17u8, 5u8), (22, 12, 85, 3, 2));
    assert_eq!(combine(1000u64, 7u64), (1007, 993, 7000, 142, 6));
}
