use frame_capture::layout::BufferDimensions;
use frame_capture::{encode_capture, unpad_rows};

/// A padded buffer whose row `r` holds `row_len` bytes `r * 16 + j`, followed by `pad`.
fn synthetic(d: &BufferDimensions, pad: u8) -> Vec<u8> {
    let mut buf = vec![pad; d.padded_bytes_per_row * d.height];
    for r in 0..d.height {
        for j in 0..d.unpadded_bytes_per_row {
            buf[r * d.padded_bytes_per_row + j] = (r * 16 + j) as u8;
        }
    }
    buf
}

fn decode(file: &[u8]) -> (u32, u32, Vec<u8>) {
    let decoder = png::Decoder::new(file);
    let mut reader = decoder.read_info().unwrap();
    let mut buf = vec![0u8; reader.output_buffer_size()];
    let info = reader.next_frame(&mut buf).unwrap();
    assert_eq!(info.color_type, png::ColorType::Rgba);
    assert_eq!(info.bit_depth, png::BitDepth::Eight);
    buf.truncate(info.buffer_size());
    (info.width, info.height, buf)
}

#[test]
fn unpad_drops_row_padding() {
    let d = BufferDimensions::new(3, 2).unwrap();
    let padded = synthetic(&d, 0xEE);
    let dense = unpad_rows(&padded, &d);
    assert_eq!(dense.len(), 24);
    let mut expected = Vec::new();
    for r in 0..2usize {
        for j in 0..12usize {
            expected.push((r * 16 + j) as u8);
        }
    }
    assert_eq!(dense, expected);
    assert!(!dense.contains(&0xEE));
}

#[test]
fn unpad_reads_no_padding_after_last_row() {
    let d = BufferDimensions::new(3, 2).unwrap();
    let mut padded = synthetic(&d, 0xEE);
    padded.truncate(256 + 12);
    let dense = unpad_rows(&padded, &d);
    assert_eq!(dense.len(), 24);
    assert_eq!(&dense[12..], &padded[256..]);
}

#[test]
fn unpad_without_padding_is_identity() {
    let d = BufferDimensions::new(64, 3).unwrap();
    let padded = synthetic(&d, 0);
    assert_eq!(unpad_rows(&padded, &d), padded);
}

#[test]
fn encoded_rows_round_trip() {
    let d = BufferDimensions::new(3, 2).unwrap();
    let padded = synthetic(&d, 0xEE);
    let file = encode_capture(&padded, &d).unwrap();
    assert_eq!(&file[..8], &[137, 80, 78, 71, 13, 10, 26, 10]);
    let (w, h, pixels) = decode(&file);
    assert_eq!((w, h), (3, 2));
    assert_eq!(pixels.len(), 24);
    for r in 0..2usize {
        let row = &pixels[r * 12..r * 12 + 12];
        let want: Vec<u8> = (0..12usize).map(|j| (r * 16 + j) as u8).collect();
        assert_eq!(row, &want[..]);
    }
}

#[test]
fn red_square_capture() {
    let d = BufferDimensions::new(512, 512).unwrap();
    let mapped: Vec<u8> = [255u8, 0, 0, 255].repeat(512 * 512);
    let file = encode_capture(&mapped, &d).unwrap();
    assert_ne!(file, mapped);
    let (w, h, pixels) = decode(&file);
    assert_eq!((w, h), (512, 512));
    assert_eq!(pixels.len(), 512 * 512 * 4);
    assert!(pixels.chunks(4).all(|p| p == [255, 0, 0, 255]));
}

#[test]
fn repeated_capture_is_byte_identical() {
    let d = BufferDimensions::new(3, 2).unwrap();
    let first = encode_capture(&synthetic(&d, 0x00), &d).unwrap();
    let second = encode_capture(&synthetic(&d, 0xFF), &d).unwrap();
    assert_eq!(first, second);
}
