use std::cmp::Ordering;
use std::mem::{align_of, size_of};

use ast_repr::nonmax::{
    has_native_layout, NonMaxU128, NonMaxU16, NonMaxU32, NonMaxU64, NonMaxU8, NonMaxUsize, RangeError,
};

#[test]
fn new_keeps_the_largest_byte() {
    let n = NonMaxU8::new(254);
    assert_eq!(n.to_native(), 254);
}

#[test]
fn byte_255_is_refused() {
    assert_eq!(NonMaxU8::try_from(255), Err(RangeError));
}

#[test]
fn word_max_is_tabulated() {
    assert_eq!(NonMaxU32::MAX, 4278190079);
}

#[test]
fn word_above_max_is_refused() {
    assert_eq!(NonMaxU32::try_from(4278190080), Err(RangeError));
    assert_eq!(NonMaxU32::try_from(4278190079).map(|n| n.to_native()), Ok(4278190079));
}

#[test]
fn maxima_are_tabulated() {
    assert_eq!(NonMaxU8::MAX, 254);
    assert_eq!(NonMaxU16::MAX, 65279);
    assert_eq!(NonMaxU32::MAX, 4278190079);
    assert_eq!(NonMaxU64::MAX, 18374686479671623679);
}

#[test]
fn maxima_follow_the_formula() {
    assert_eq!(NonMaxU8::MAX, (255u8 << (u8::BITS - 8)) - 1);
    assert_eq!(NonMaxU16::MAX, (255u16 << (u16::BITS - 8)) - 1);
    assert_eq!(NonMaxU32::MAX, (255u32 << (u32::BITS - 8)) - 1);
    assert_eq!(NonMaxU64::MAX, (255u64 << (u64::BITS - 8)) - 1);
    assert_eq!(NonMaxU128::MAX, (255u128 << (u128::BITS - 8)) - 1);
    assert_eq!(NonMaxUsize::MAX, (255usize << (usize::BITS - 8)) - 1);
}

#[test]
fn every_legal_byte_round_trips() {
    for n in 0..=254u8 {
        assert_eq!(NonMaxU8::new(n).to_native(), n);
        assert_eq!(NonMaxU8::new_unchecked(n).to_native(), n);
        assert_eq!(NonMaxU8::try_from(n).map(|v| v.to_native()), Ok(n));
    }
}

#[test]
fn every_legal_half_round_trips() {
    for n in 0..=NonMaxU16::MAX {
        assert_eq!(NonMaxU16::new(n).to_native(), n);
    }
}

#[test]
fn every_illegal_half_is_refused() {
    for n in (NonMaxU16::MAX + 1)..=u16::MAX {
        assert_eq!(NonMaxU16::try_from(n), Err(RangeError));
    }
}

#[test]
fn words_round_trip() {
    for n in [0u32, 1, 255, 256, 65535, 65536, 0x0102_0304, 0xFEFF_FFFE, NonMaxU32::MAX] {
        assert_eq!(NonMaxU32::new(n).to_native(), n);
        assert_eq!(NonMaxU32::new_unchecked(n).to_native(), n);
        assert_eq!(u32::from(NonMaxU32::new(n)), n);
    }
}

#[test]
fn doubles_round_trip() {
    for n in [0u64, 1, 0x0102_0304_0506_0708, 0xFEFF_FFFF_FFFF_FFFE, NonMaxU64::MAX] {
        assert_eq!(NonMaxU64::new(n).to_native(), n);
        assert_eq!(u64::from(NonMaxU64::new(n)), n);
    }
}

#[test]
fn quads_round_trip() {
    for n in [
        0u128,
        1,
        0x0102_0304_0506_0708_090A_0B0C_0D0E_0F10,
        NonMaxU128::MAX - 1,
        NonMaxU128::MAX,
    ] {
        assert_eq!(NonMaxU128::new(n).to_native(), n);
        assert_eq!(u128::from(NonMaxU128::new(n)), n);
    }
}

#[test]
fn pointer_widths_round_trip() {
    for n in [0usize, 1, 0x0102_0304, usize::MAX / 3, NonMaxUsize::MAX - 1, NonMaxUsize::MAX] {
        assert_eq!(NonMaxUsize::new(n).to_native(), n);
        assert_eq!(usize::from(NonMaxUsize::new(n)), n);
    }
}

#[test]
fn numbers_above_max_are_refused() {
    assert_eq!(NonMaxU8::try_from(u8::MAX), Err(RangeError));
    assert_eq!(NonMaxU16::try_from(NonMaxU16::MAX + 1), Err(RangeError));
    assert_eq!(NonMaxU16::try_from(u16::MAX), Err(RangeError));
    assert_eq!(NonMaxU32::try_from(NonMaxU32::MAX + 1), Err(RangeError));
    assert_eq!(NonMaxU32::try_from(u32::MAX), Err(RangeError));
    assert_eq!(NonMaxU64::try_from(NonMaxU64::MAX + 1), Err(RangeError));
    assert_eq!(NonMaxU64::try_from(u64::MAX), Err(RangeError));
    assert_eq!(NonMaxU128::try_from(NonMaxU128::MAX + 1), Err(RangeError));
    assert_eq!(NonMaxU128::try_from(u128::MAX), Err(RangeError));
    assert_eq!(NonMaxUsize::try_from(NonMaxUsize::MAX + 1), Err(RangeError));
    assert_eq!(NonMaxUsize::try_from(usize::MAX), Err(RangeError));
}

#[test]
fn numbers_up_to_max_are_taken() {
    assert_eq!(NonMaxU16::try_from(NonMaxU16::MAX).map(|n| n.to_native()), Ok(65279));
    assert_eq!(NonMaxU64::try_from(7).map(|n| n.to_native()), Ok(7));
    assert_eq!(
        NonMaxU128::try_from(NonMaxU128::MAX).map(|n| n.to_native()),
        Ok(NonMaxU128::MAX)
    );
    assert_eq!(
        NonMaxUsize::try_from(NonMaxUsize::MAX).map(|n| n.to_native()),
        Ok(NonMaxUsize::MAX)
    );
}

#[test]
fn size_matches_native() {
    assert_eq!(size_of::<NonMaxU8>(), size_of::<u8>());
    assert_eq!(size_of::<NonMaxU16>(), size_of::<u16>());
    assert_eq!(size_of::<NonMaxU32>(), size_of::<u32>());
    assert_eq!(size_of::<NonMaxU64>(), size_of::<u64>());
    assert_eq!(size_of::<NonMaxU128>(), size_of::<u128>());
    assert_eq!(size_of::<NonMaxUsize>(), size_of::<usize>());
}

#[test]
fn alignment_matches_native() {
    assert_eq!(align_of::<NonMaxU8>(), align_of::<u8>());
    assert_eq!(align_of::<NonMaxU16>(), align_of::<u16>());
    assert_eq!(align_of::<NonMaxU32>(), align_of::<u32>());
    assert_eq!(align_of::<NonMaxU64>(), align_of::<u64>());
    assert_eq!(align_of::<NonMaxU128>(), align_of::<u128>());
    assert_eq!(align_of::<NonMaxUsize>(), align_of::<usize>());
}

#[test]
fn the_library_sees_its_layout() {
    assert!(has_native_layout());
}

#[test]
fn option_costs_no_storage() {
    assert_eq!(size_of::<Option<NonMaxU8>>(), size_of::<u8>());
    assert_eq!(size_of::<Option<NonMaxU16>>(), size_of::<u16>());
    assert_eq!(size_of::<Option<NonMaxU32>>(), size_of::<u32>());
    assert_eq!(size_of::<Option<NonMaxU64>>(), size_of::<u64>());
    assert_eq!(size_of::<Option<NonMaxU128>>(), size_of::<u128>());
    assert_eq!(size_of::<Option<NonMaxUsize>>(), size_of::<usize>());
}

#[test]
fn order_of_bytes_is_that_of_the_numbers() {
    for a in [0u8, 1, 127, 128, 253, 254] {
        for b in [0u8, 1, 127, 128, 253, 254] {
            let (x, y) = (NonMaxU8::new(a), NonMaxU8::new(b));
            assert_eq!(x.partial_cmp(&y), a.partial_cmp(&b));
            assert_eq!(x.cmp(&y), a.cmp(&b));
            assert_eq!(x == y, a == b);
            assert_eq!(x < y, a < b);
        }
    }
}

#[test]
fn order_of_words_is_that_of_the_numbers() {
    let samples = [0u32, 1, 255, 256, 257, 0x0001_0000, 0x00FF_FFFF, 0x0100_0000, NonMaxU32::MAX];
    for a in samples {
        for b in samples {
            let (x, y) = (NonMaxU32::new(a), NonMaxU32::new(b));
            assert_eq!(x.partial_cmp(&y), a.partial_cmp(&b));
            assert_eq!(x.cmp(&y), a.cmp(&b));
            assert_eq!(x == y, a == b);
            assert_eq!(x <= y, a <= b);
        }
    }
}

#[test]
fn order_of_the_other_widths_is_that_of_the_numbers() {
    assert_eq!(NonMaxU16::new(0x00FF).partial_cmp(&NonMaxU16::new(0x0100)), Some(Ordering::Less));
    assert_eq!(NonMaxU16::new(0x00FF).cmp(&NonMaxU16::new(0x0100)), Ordering::Less);
    assert_eq!(
        NonMaxU64::new(0x0100_0000_0000).partial_cmp(&NonMaxU64::new(0xFFFF)),
        Some(Ordering::Greater)
    );
    assert_eq!(NonMaxU64::new(0x0100_0000_0000).cmp(&NonMaxU64::new(0xFFFF)), Ordering::Greater);
    assert_eq!(
        NonMaxU128::new(1 << 100).partial_cmp(&NonMaxU128::new((1 << 100) + 1)),
        Some(Ordering::Less)
    );
    assert_eq!(NonMaxU128::new(1 << 100).cmp(&NonMaxU128::new(255)), Ordering::Greater);
    assert_eq!(NonMaxUsize::new(9).partial_cmp(&NonMaxUsize::new(9)), Some(Ordering::Equal));
    assert_eq!(NonMaxUsize::new(0x00FF).cmp(&NonMaxUsize::new(0x0100)), Ordering::Less);
    assert!(NonMaxUsize::new(NonMaxUsize::MAX) > NonMaxUsize::new(0));
}

#[test]
fn text_is_that_of_the_number() {
    assert_eq!(NonMaxU8::new(254).to_string(), "254");
    assert_eq!(NonMaxU16::new(0).to_string(), "0");
    assert_eq!(NonMaxU32::new(4278190079).to_string(), "4278190079");
    assert_eq!(NonMaxU64::new(NonMaxU64::MAX).to_string(), "18374686479671623679");
    assert_eq!(NonMaxU128::new(12345678901234567890123).to_string(), "12345678901234567890123");
    assert_eq!(NonMaxUsize::new(42).to_string(), "42");
}
