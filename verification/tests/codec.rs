use pixelframe::codec::decode;
use pixelframe::codec::encode;
use pixelframe::codec::encode_stored;
use pixelframe::codec::lay_out;
use pixelframe::error::DecodeError;
use pixelframe::error::EncodeError;
use pixelframe::grid::PixelGrid;
use pixelframe::variant::Variant;
use pixelframe::zlib::select_stored;

fn patterned(len: usize, step: usize) -> Vec<u8> {
    let mut bytes = Vec::with_capacity(len);
    for i in 0..len {
        bytes.push(((i * step + i / 7) % 251) as u8);
    }
    bytes
}

#[test]
fn five_bytes_stored_raw() {
    let payload = [0x00u8, 0x01, 0x02, 0x03, 0x04];
    let grid = encode_stored(false, &payload).unwrap();
    assert_eq!(grid.width(), 4);
    assert_eq!(grid.height(), 2);
    assert_eq!(grid.variant(), Variant::Rgba);
    let mut expected = vec![0x00, 0x05, 0, 0, 0, 0, 0, 0, 0, 0x00, 0x01, 0x02, 0x03, 0x04];
    expected.resize(32, 0);
    assert_eq!(grid.as_bytes(), &expected[..]);
    assert_eq!(grid.as_bytes().len(), 32);
    assert_eq!(decode(&grid), Ok(payload.to_vec()));
}

#[test]
fn five_bytes_read_back_from_their_image_bytes() {
    let mut bytes = vec![0x00, 0x05, 0, 0, 0, 0, 0, 0, 0, 0x00, 0x01, 0x02, 0x03, 0x04];
    bytes.resize(32, 0);
    let grid = PixelGrid::from_raw(4, 2, Variant::Rgba, bytes).unwrap();
    assert_eq!(decode(&grid), Ok(vec![0x00, 0x01, 0x02, 0x03, 0x04]));
}

#[test]
fn round_trip_of_nothing() {
    let grid = encode(&[], Variant::Rgba).unwrap();
    assert_eq!(decode(&grid), Ok(Vec::new()));
}

#[test]
fn round_trip_of_one_byte() {
    for byte in [0u8, 1, 0x7f, 0xff] {
        let grid = encode(&[byte], Variant::Rgba).unwrap();
        assert_eq!(decode(&grid), Ok(vec![byte]));
    }
}

#[test]
fn round_trip_of_compressible_kilobytes() {
    let mut encoded = 0;
    for len in 1000usize..1040 {
        let payload = vec![b'x'; len];
        if let Ok(grid) = encode(&payload, Variant::Rgba) {
            encoded += 1;
            assert!(grid.as_bytes().len() < len);
            assert_eq!(grid.as_bytes()[0], 1);
            assert_eq!(decode(&grid), Ok(payload));
        }
    }
    assert!(encoded > 0);
}

#[test]
fn round_trip_of_megabytes() {
    let mut encoded = 0;
    for step in 1usize..12 {
        let payload = patterned(2 * 1024 * 1024 + step, step);
        match encode(&payload, Variant::Rgba) {
            Ok(grid) => {
                encoded += 1;
                assert_eq!(
                    grid.as_bytes().len(),
                    grid.width() as usize * grid.height() as usize * 4
                );
                assert_eq!(decode(&grid), Ok(payload));
            }
            Err(e) => assert_eq!(e, EncodeError::BufferTooLong),
        }
        if encoded == 2 {
            break;
        }
    }
    assert!(encoded > 0);
}

#[test]
fn round_trip_of_raw_megabytes() {
    // A frame of 4 194 304 bytes has the root 2048 and fits its grid.
    let payload = patterned(4_194_304 - 9, 3);
    let grid = encode_stored(false, &payload).unwrap();
    assert_eq!(grid.width(), 1026);
    assert_eq!(grid.height(), 1024);
    assert_eq!(grid.as_bytes().len(), 4_202_496);
    assert_eq!(decode(&grid), Ok(payload));
}

#[test]
fn round_trip_whenever_a_raw_frame_is_laid_out() {
    let mut encoded = 0;
    let mut refused = 0;
    for len in 0usize..600 {
        let payload = patterned(len, 5);
        match encode_stored(false, &payload) {
            Ok(grid) => {
                encoded += 1;
                assert_eq!(decode(&grid), Ok(payload));
            }
            Err(e) => {
                refused += 1;
                assert_eq!(e, EncodeError::BufferTooLong);
            }
        }
    }
    assert!(encoded > 300);
    assert!(refused > 0);
}

#[test]
fn forced_compression_failure_still_round_trips() {
    // 135 bytes make a frame of 144, whose root 12 is a multiple of four.
    let payload = patterned(135, 11);
    let (is_compressed, stored) = select_stored(&payload, None);
    assert!(!is_compressed);
    assert_eq!(stored, payload);
    let grid = encode_stored(is_compressed, &stored).unwrap();
    assert_eq!(grid.as_bytes()[0], 0);
    assert_eq!(decode(&grid), Ok(payload));
}

#[test]
fn grid_always_holds_width_times_height_times_channels() {
    for variant in [Variant::Rgba, Variant::Rgb] {
        for len in 0usize..300 {
            if let Ok(grid) = lay_out(vec![7; len], variant) {
                let capacity =
                    grid.width() as usize * grid.height() as usize * variant.channels() as usize;
                assert_eq!(grid.as_bytes().len(), capacity);
                assert!(capacity >= len);
                assert_eq!(grid.as_bytes()[..len], vec![7; len][..]);
                assert!(grid.as_bytes()[len..].iter().all(|b| *b == 0));
            }
        }
    }
}

#[test]
fn four_channel_grid_is_half_as_wide_and_twice_as_high() {
    let grid = lay_out(vec![1; 14], Variant::Rgba).unwrap();
    assert_eq!((grid.width(), grid.height()), (4, 2));
    let grid = lay_out(vec![1; 122], Variant::Rgba).unwrap();
    assert_eq!((grid.width(), grid.height()), (8, 6));
    assert_eq!(grid.as_bytes().len(), 192);
}

#[test]
fn three_channel_grid_is_as_solved() {
    let grid = lay_out(vec![1; 10], Variant::Rgb).unwrap();
    assert_eq!((grid.width(), grid.height()), (6, 1));
    assert_eq!(grid.as_bytes().len(), 18);
    let grid = lay_out(vec![1; 37], Variant::Rgb).unwrap();
    assert_eq!((grid.width(), grid.height()), (9, 2));
    assert_eq!(grid.as_bytes().len(), 54);
}

#[test]
fn three_channel_round_trip_keeps_the_padding() {
    let payload = [10u8, 20, 30, 40, 50, 60, 70, 80, 90, 100];
    let grid = encode(&payload, Variant::Rgb).unwrap();
    let mut padded = payload.to_vec();
    padded.resize(18, 0);
    assert_eq!(decode(&grid), Ok(padded));
    assert_ne!(decode(&grid), Ok(payload.to_vec()));
}

#[test]
fn three_channel_round_trip_is_exact_without_padding() {
    let payload = patterned(18, 3);
    let grid = encode(&payload, Variant::Rgb).unwrap();
    assert_eq!(grid.as_bytes().len(), 18);
    assert_eq!(decode(&grid), Ok(payload));
    let grid = encode(&[], Variant::Rgb).unwrap();
    assert_eq!(decode(&grid), Ok(Vec::new()));
}

#[test]
fn three_channel_round_trip_is_padded_for_many_lengths() {
    let mut encoded = 0;
    for len in 0usize..400 {
        let payload = patterned(len, 13);
        if let Ok(grid) = encode(&payload, Variant::Rgb) {
            encoded += 1;
            let decoded = decode(&grid).unwrap();
            assert_eq!(decoded.len(), grid.as_bytes().len());
            assert_eq!(decoded[..len], payload[..]);
            assert!(decoded[len..].iter().all(|b| *b == 0));
        }
    }
    assert!(encoded > 200);
}

#[test]
fn three_channel_payload_is_never_compressed() {
    let payload = vec![b'z'; 50];
    let grid = encode(&payload, Variant::Rgb).unwrap();
    assert_eq!(grid.as_bytes()[..50], payload[..]);
}

#[test]
fn frame_longer_than_its_grid_is_refused() {
    // An empty payload stored raw: 9 bytes, root 3, a grid without rows.
    assert_eq!(
        encode_stored(false, &[]).err(),
        Some(EncodeError::BufferTooLong)
    );
    // 24 bytes stored raw: 33 bytes, root 6, a grid of 32 bytes.
    assert_eq!(
        encode_stored(false, &[1; 24]).err(),
        Some(EncodeError::BufferTooLong)
    );
    assert_eq!(
        lay_out(vec![0; 55], Variant::Rgb).err(),
        Some(EncodeError::BufferTooLong)
    );
    assert_eq!(
        encode(&[1], Variant::Rgb).err(),
        Some(EncodeError::BufferTooLong)
    );
}

#[test]
fn compressed_stream_longer_than_its_grid_is_refused() {
    // Sixteen distinct bytes do not shrink: their stream and header make a
    // frame of 33 to 36 bytes, whose root is 6 and whose grid holds 32.
    let payload: Vec<u8> = (0..16).collect();
    assert_eq!(
        encode(&payload, Variant::Rgba).err(),
        Some(EncodeError::BufferTooLong)
    );
}

#[test]
fn decode_of_malformed_grids() {
    let empty = PixelGrid::from_raw(4, 0, Variant::Rgba, Vec::new()).unwrap();
    assert_eq!(decode(&empty), Err(DecodeError::EmptyInput));
    let short = PixelGrid::from_raw(1, 1, Variant::Rgba, vec![0; 4]).unwrap();
    assert_eq!(decode(&short), Err(DecodeError::HeaderTooShort));
    let cut = PixelGrid::from_raw(
        1,
        3,
        Variant::Rgba,
        vec![0, 4, 0, 0, 0, 0, 0, 0, 0, 1, 2, 3],
    )
    .unwrap();
    assert_eq!(decode(&cut), Err(DecodeError::Truncated));
    let garbage = PixelGrid::from_raw(
        1,
        3,
        Variant::Rgba,
        vec![1, 3, 0, 0, 0, 0, 0, 0, 0, 1, 2, 3],
    )
    .unwrap();
    assert_eq!(decode(&garbage), Err(DecodeError::Decompression));
}

#[test]
fn decode_of_an_empty_three_channel_grid() {
    let empty = PixelGrid::from_raw(3, 0, Variant::Rgb, Vec::new()).unwrap();
    assert_eq!(decode(&empty), Ok(Vec::new()));
}
