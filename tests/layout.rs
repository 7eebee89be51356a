use frame_capture::layout::{BufferDimensions, BYTES_PER_PIXEL};
use frame_capture::CaptureError;

#[test]
fn square_capture_needs_no_padding() {
    let d = BufferDimensions::new(512, 512).unwrap();
    assert_eq!(d.width, 512);
    assert_eq!(d.height, 512);
    assert_eq!(d.align, 256);
    assert_eq!(d.unpadded_bytes_per_row, 2048);
    assert_eq!(d.padded_bytes_per_row, 2048);
    assert_eq!(d.buffer_size(), 2048 * 512);
}

#[test]
fn narrow_capture_is_padded_to_alignment() {
    let d = BufferDimensions::new(3, 2).unwrap();
    assert_eq!(d.unpadded_bytes_per_row, 12);
    assert_eq!(d.padded_bytes_per_row, 256);
    assert_eq!(d.padded_bytes_per_row - d.unpadded_bytes_per_row, 244);
    assert_eq!(d.buffer_size(), 512);
}

#[test]
fn zero_width_is_invalid() {
    assert_eq!(BufferDimensions::new(0, 512), Err(CaptureError::InvalidDimensions));
}

#[test]
fn zero_height_is_invalid() {
    assert_eq!(BufferDimensions::new(512, 0), Err(CaptureError::InvalidDimensions));
}

#[test]
fn stride_beyond_u32_is_invalid() {
    // 2^30 pixels make a row of 2^32 bytes, one more than a copy layout can state.
    assert_eq!(BufferDimensions::new(1 << 30, 1), Err(CaptureError::InvalidDimensions));
    let d = BufferDimensions::new((1 << 30) - 64, 1).unwrap();
    assert_eq!(d.padded_bytes_per_row, (1 << 32) - 256);
}

#[test]
fn height_beyond_u32_is_invalid() {
    assert_eq!(
        BufferDimensions::new(1, (u32::MAX as usize) + 1),
        Err(CaptureError::InvalidDimensions)
    );
}

#[test]
fn encoder_working_size_beyond_half_address_space_is_invalid() {
    // The readback buffer would fit, but a filter byte per row and the pixels
    // of every row exceed half the address space.
    let width = (1usize << 30) - 64;
    assert_eq!(
        BufferDimensions::new(width, u32::MAX as usize),
        Err(CaptureError::InvalidDimensions)
    );
    assert!(BufferDimensions::new(width, 1 << 30).is_ok());
}

#[test]
fn padded_stride_is_aligned_and_minimal() {
    for width in 1..2000usize {
        let d = BufferDimensions::new(width, 1).unwrap();
        let unpadded = width * BYTES_PER_PIXEL;
        assert_eq!(d.unpadded_bytes_per_row, unpadded);
        assert_eq!(d.padded_bytes_per_row % 256, 0);
        assert!(d.padded_bytes_per_row >= unpadded);
        assert!(d.padded_bytes_per_row < unpadded + 256);
    }
}

#[test]
fn aligned_rows_get_no_padding() {
    for width in [64usize, 128, 192, 1024, 4096] {
        let d = BufferDimensions::new(width, 3).unwrap();
        assert_eq!(d.padded_bytes_per_row, width * 4);
    }
}

#[test]
fn other_alignments() {
    let d = BufferDimensions::with_alignment(3, 2, 8).unwrap();
    assert_eq!(d.padded_bytes_per_row, 16);
    let d = BufferDimensions::with_alignment(5, 1, 4).unwrap();
    assert_eq!(d.padded_bytes_per_row, 20);
    let d = BufferDimensions::with_alignment(5, 1, 1).unwrap();
    assert_eq!(d.padded_bytes_per_row, 20);
    let d = BufferDimensions::with_alignment(1, 1, 512).unwrap();
    assert_eq!(d.padded_bytes_per_row, 512);
    assert_eq!(
        BufferDimensions::with_alignment(0, 1, 8),
        Err(CaptureError::InvalidDimensions)
    );
}
