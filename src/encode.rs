use vstd::prelude::*;
use crate::error::CaptureError;
use crate::layout::BufferDimensions;
use crate::unpad::{dense_pixels, lemma_padding_ignored, unpad_rows};

verus! {

/// The bytes of the PNG file, 8 bits per channel and RGBA, that the png crate's
/// encoder writes for a `width` x `height` image with the given dense pixel rows.
pub uninterp spec fn png_rgba8_of(width: nat, height: nat, pixels: Seq<u8>) -> Seq<u8>;

#[verifier::external_type_specification]
#[verifier::external_body]
pub struct ExEncodingError(png::EncodingError);

/// Relies on the png crate's encoder: `Encoder::new` over an in-memory writer,
/// `set_depth(Eight)`, `set_color(Rgba)`, `write_header`, then
/// `Writer::write_image_data` and `Writer::finish`. When it succeeds the bytes
/// are the PNG file for these pixels, which depends on the arguments alone.
/// Writing into a `Vec` cannot fail, so the encoder refuses only a zero width
/// or height and a pixel buffer of the wrong length. Its row and buffer size
/// arithmetic (a filter byte per row, the stored-block bound of the fast
/// compressor) stays in range under the bound of `requires`.
#[verifier::external_body]
fn encode_rgba8(width: u32, height: u32, pixels: &[u8]) -> (r: Result<Vec<u8>, png::EncodingError>)
    requires
        (width as nat * 4 + 1) * height as nat <= usize::MAX / 2,
    ensures
        r matches Ok(v) ==> v@ == png_rgba8_of(width as nat, height as nat, pixels@),
        width > 0 && height > 0 && pixels@.len() == (width as nat) * 4 * (height as nat) ==> r is Ok,
{
    let mut out: Vec<u8> = Vec::new();
    let mut encoder = png::Encoder::new(&mut out, width, height);
    encoder.set_depth(png::BitDepth::Eight);
    encoder.set_color(png::ColorType::Rgba);
    let mut writer = encoder.write_header()?;
    writer.write_image_data(pixels)?;
    writer.finish()?;
    Ok(out)
}

/// The image file that a capture with layout `dims` produces from the
/// readback memory `mapped`.
pub open spec fn capture_file(mapped: Seq<u8>, dims: BufferDimensions) -> Seq<u8> {
    png_rgba8_of(dims.width as nat, dims.height as nat, dense_pixels(mapped, dims))
}

/// Strips the row padding from the mapped readback memory and encodes the
/// dense rows as an 8-bit RGBA PNG file.
pub fn encode_capture(mapped: &[u8], dims: &BufferDimensions) -> (r: Result<Vec<u8>, CaptureError>)
    requires
        dims.wf(),
        mapped@.len() >= dims.min_mapped_len(),
    ensures
        r is Ok,
        r matches Ok(v) ==> v@ == capture_file(mapped@, *dims),
{
    let pixels = unpad_rows(mapped, dims);
    assert(pixels@.len() == (dims.width as nat) * 4 * (dims.height as nat)) by (nonlinear_arith)
        requires
            pixels@.len() == dims.height * dims.unpadded_bytes_per_row,
            dims.unpadded_bytes_per_row == dims.width * 4,
    ;
    match encode_rgba8(dims.width as u32, dims.height as u32, pixels.as_slice()) {
        Ok(bytes) => Ok(bytes),
        Err(_) => Err(CaptureError::EncodeFailed),
    }
}

/// Two captures with the same layout whose readback memory holds the same
/// pixel bytes produce byte-identical files, whatever the padding holds.
pub proof fn lemma_capture_repeatable(a: Seq<u8>, b: Seq<u8>, dims: BufferDimensions)
    requires
        dims.wf(),
        a.len() >= dims.min_mapped_len(),
        b.len() >= dims.min_mapped_len(),
        forall|i: int, j: int|
            0 <= i < dims.height && 0 <= j < dims.unpadded_bytes_per_row ==> #[trigger] a[i
                * dims.padded_bytes_per_row + j] == b[i * dims.padded_bytes_per_row + j],
    ensures
        capture_file(a, dims) == capture_file(b, dims),
{
    lemma_padding_ignored(a, b, dims);
}

} // verus!
