use pixelframe::dims::ceil_sqrt_u32;
use pixelframe::dims::solve_dimensions;
use pixelframe::error::EncodeError;
use pixelframe::variant::Variant;

#[test]
fn ceil_sqrt_of_small_numbers() {
    assert_eq!(ceil_sqrt_u32(0), 0);
    assert_eq!(ceil_sqrt_u32(1), 1);
    assert_eq!(ceil_sqrt_u32(2), 2);
    assert_eq!(ceil_sqrt_u32(4), 2);
    assert_eq!(ceil_sqrt_u32(5), 3);
    assert_eq!(ceil_sqrt_u32(9), 3);
    assert_eq!(ceil_sqrt_u32(14), 4);
    assert_eq!(ceil_sqrt_u32(16), 4);
    assert_eq!(ceil_sqrt_u32(17), 5);
}

#[test]
fn ceil_sqrt_of_large_numbers() {
    assert_eq!(ceil_sqrt_u32(4_194_304), 2048);
    assert_eq!(ceil_sqrt_u32(4_194_305), 2049);
    assert_eq!(ceil_sqrt_u32(4_294_836_225), 65_535);
    assert_eq!(ceil_sqrt_u32(4_294_836_226), 65_536);
    assert_eq!(ceil_sqrt_u32(u32::MAX), 65_536);
}

#[test]
fn ceil_sqrt_is_least_root_everywhere_below_ten_thousand() {
    for n in 0u32..10_000 {
        let w = u64::from(ceil_sqrt_u32(n));
        assert!(w * w >= u64::from(n));
        assert!(w == 0 || (w - 1) * (w - 1) < u64::from(n));
    }
}

#[test]
fn dimensions_of_fourteen_bytes_in_four_channels() {
    assert_eq!(solve_dimensions(14, Variant::Rgba), Ok((8, 1)));
}

#[test]
fn aligned_root_still_gains_a_whole_step() {
    // The root of 16 is 4, a multiple of 4 already: the width is 8, not 4.
    assert_eq!(solve_dimensions(16, Variant::Rgba), Ok((8, 1)));
    // The root of 9 is 3, a multiple of 3 already: the width is 6, not 3.
    assert_eq!(solve_dimensions(9, Variant::Rgb), Ok((6, 1)));
}

#[test]
fn dimensions_of_short_buffers() {
    assert_eq!(solve_dimensions(0, Variant::Rgba), Ok((4, 0)));
    assert_eq!(solve_dimensions(1, Variant::Rgba), Ok((4, 0)));
    assert_eq!(solve_dimensions(9, Variant::Rgba), Ok((4, 0)));
    assert_eq!(solve_dimensions(0, Variant::Rgb), Ok((3, 0)));
    assert_eq!(solve_dimensions(1, Variant::Rgb), Ok((3, 0)));
}

#[test]
fn dimensions_of_longer_buffers() {
    assert_eq!(solve_dimensions(17, Variant::Rgba), Ok((8, 1)));
    assert_eq!(solve_dimensions(100, Variant::Rgba), Ok((12, 2)));
    assert_eq!(solve_dimensions(122, Variant::Rgba), Ok((16, 3)));
    assert_eq!(solve_dimensions(4_194_304, Variant::Rgba), Ok((2052, 512)));
    assert_eq!(solve_dimensions(10, Variant::Rgb), Ok((6, 1)));
    assert_eq!(solve_dimensions(36, Variant::Rgb), Ok((9, 2)));
    assert_eq!(solve_dimensions(37, Variant::Rgb), Ok((9, 2)));
}

#[test]
fn dimension_formula_holds_for_many_lengths() {
    for variant in [Variant::Rgba, Variant::Rgb] {
        let d = variant.channels();
        for len in 0usize..5_000 {
            let (width, height) = solve_dimensions(len, variant).unwrap();
            assert_eq!(width % d, 0);
            assert_eq!(height, width / d - 1);
            let root = ceil_sqrt_u32(len as u32);
            assert_eq!(width, root + (d - root % d));
        }
    }
}

#[test]
fn capacity_covers_the_buffer_where_the_root_is_aligned() {
    for variant in [Variant::Rgba, Variant::Rgb] {
        let d = variant.channels();
        for len in 0usize..5_000 {
            let root = ceil_sqrt_u32(len as u32);
            if root >= d && root % d <= 1 {
                let (width, height) = solve_dimensions(len, variant).unwrap();
                assert!((width * height * d) as usize >= len);
            }
        }
    }
}

#[test]
fn capacity_can_fall_short_of_the_buffer() {
    // Root 3: width 4, height 0, no room at all.
    let (width, height) = solve_dimensions(9, Variant::Rgba).unwrap();
    assert_eq!(width * height * 4, 0);
    // Root 6: width 8, height 1, room for 32 bytes only.
    let (width, height) = solve_dimensions(33, Variant::Rgba).unwrap();
    assert_eq!(width * height * 4, 32);
    // Root 7 in three channels: width 9, height 2, room for 54 bytes only.
    let (width, height) = solve_dimensions(55, Variant::Rgb).unwrap();
    assert_eq!(width * height * 3, 54);
}

#[test]
fn largest_lengths_are_still_solved() {
    if usize::BITS >= 64 {
        assert_eq!(
            solve_dimensions(4_294_836_225, Variant::Rgba),
            Ok((65_536, 16_383))
        );
        assert_eq!(
            solve_dimensions(4_294_705_156, Variant::Rgb),
            Ok((65_535, 21_844))
        );
    }
}

#[test]
fn grid_beyond_32_bits_is_refused() {
    if usize::BITS >= 64 {
        assert_eq!(
            solve_dimensions(4_294_836_226, Variant::Rgba),
            Err(EncodeError::DimensionOverflow)
        );
        assert_eq!(
            solve_dimensions(u32::MAX as usize, Variant::Rgba),
            Err(EncodeError::DimensionOverflow)
        );
        assert_eq!(
            solve_dimensions(4_294_705_157, Variant::Rgb),
            Err(EncodeError::DimensionOverflow)
        );
    }
}

#[test]
fn length_beyond_32_bits_is_refused() {
    if usize::BITS >= 64 {
        let len = u32::MAX as usize + 1;
        assert_eq!(
            solve_dimensions(len, Variant::Rgba),
            Err(EncodeError::LengthOutOfRange)
        );
        assert_eq!(
            solve_dimensions(len, Variant::Rgb),
            Err(EncodeError::LengthOutOfRange)
        );
        assert_eq!(
            solve_dimensions(usize::MAX, Variant::Rgba),
            Err(EncodeError::LengthOutOfRange)
        );
    }
}

#[test]
fn channel_counts() {
    assert_eq!(Variant::Rgba.channels(), 4);
    assert_eq!(Variant::Rgb.channels(), 3);
}
