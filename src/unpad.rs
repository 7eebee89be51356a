use vstd::prelude::*;
use vstd::arithmetic::div_mod::lemma_fundamental_div_mod_converse;
use crate::layout::{lemma_padded_row_bounds, BufferDimensions};

verus! {

/// The dense image held by a padded buffer: `height` rows of `row_len`
/// bytes, row `i` taken from offset `i * stride`.
pub open spec fn unpadded_image(padded: Seq<u8>, stride: nat, row_len: nat, height: nat) -> Seq<
    u8,
> {
    Seq::new(
        height * row_len,
        |k: int| padded[(k / row_len as int) * stride + k % row_len as int],
    )
}

/// A dense image read back as its `height` rows of `row_len` bytes, top row first.
pub open spec fn image_rows(image: Seq<u8>, row_len: nat, height: nat) -> Seq<Seq<u8>> {
    Seq::new(height, |i: int| image.subrange(i * row_len, i * row_len + row_len))
}

/// The dense image that the readback memory `padded` holds under `dims`.
pub open spec fn dense_pixels(padded: Seq<u8>, dims: BufferDimensions) -> Seq<u8> {
    unpadded_image(
        padded,
        dims.padded_bytes_per_row as nat,
        dims.unpadded_bytes_per_row as nat,
        dims.height as nat,
    )
}

proof fn lemma_row_index(row: int, j: int, row_len: int)
    requires
        0 <= j < row_len,
    ensures
        (row * row_len + j) / row_len == row,
        (row * row_len + j) % row_len == j,
{
    lemma_fundamental_div_mod_converse(row * row_len + j, row_len, row, j);
}

/// Copies the first `unpadded_bytes_per_row` bytes of each of the `height`
/// padded rows of `padded` into one dense buffer, dropping the padding.
pub fn unpad_rows(padded: &[u8], dims: &BufferDimensions) -> (r: Vec<u8>)
    requires
        dims.wf(),
        padded@.len() >= dims.min_mapped_len(),
    ensures
        r@ == dense_pixels(padded@, *dims),
{
    let height = dims.height;
    let stride = dims.padded_bytes_per_row;
    let row_len = dims.unpadded_bytes_per_row;
    let mut out: Vec<u8> = Vec::new();
    let mut row: usize = 0;
    while row < height
        invariant
            dims.wf(),
            height == dims.height,
            stride == dims.padded_bytes_per_row,
            row_len == dims.unpadded_bytes_per_row,
            padded@.len() >= dims.min_mapped_len(),
            row <= height,
            out@.len() == row * row_len,
            forall|k: int|
                0 <= k < out@.len() ==> #[trigger] out@[k] == padded@[(k / row_len as int) * stride
                    + k % row_len as int],
        decreases height - row,
    {
        proof {
            lemma_padded_row_bounds(dims.width as nat, dims.align as nat);
        }
        assert(row * stride + row_len <= (height - 1) * stride + row_len) by (nonlinear_arith)
            requires
                row < height,
        ;
        assert(row * stride + row_len <= stride * height) by (nonlinear_arith)
            requires
                row < height,
                row_len <= stride,
        ;
        let start = row * stride;
        let mut j: usize = 0;
        while j < row_len
            invariant
                dims.wf(),
                height == dims.height,
                stride == dims.padded_bytes_per_row,
                row_len == dims.unpadded_bytes_per_row,
                padded@.len() >= dims.min_mapped_len(),
                row < height,
                start == row * stride,
                start + row_len <= padded@.len(),
                start + row_len <= stride * height,
                j <= row_len,
                out@.len() == row * row_len + j,
                forall|k: int|
                    0 <= k < out@.len() ==> #[trigger] out@[k] == padded@[(k / row_len as int)
                        * stride + k % row_len as int],
            decreases row_len - j,
        {
            proof {
                lemma_row_index(row as int, j as int, row_len as int);
            }
            out.push(padded[start + j]);
            j += 1;
        }
        assert(row * row_len + row_len == (row + 1) * row_len) by (nonlinear_arith);
        row += 1;
    }
    assert(out@ =~= dense_pixels(padded@, *dims));
    out
}

/// Unpadding a buffer whose padded rows begin with the given pixel rows and
/// reading the result back row by row gives exactly those rows, in their
/// order, whatever the padding bytes hold.
pub proof fn lemma_unpad_round_trip(rows: Seq<Seq<u8>>, padded: Seq<u8>, dims: BufferDimensions)
    requires
        dims.wf(),
        rows.len() == dims.height,
        forall|i: int| 0 <= i < rows.len() ==> #[trigger] rows[i].len() == dims.unpadded_bytes_per_row,
        padded.len() >= dims.min_mapped_len(),
        forall|i: int, j: int|
            0 <= i < rows.len() && 0 <= j < dims.unpadded_bytes_per_row ==> #[trigger] rows[i][j]
                == padded[i * dims.padded_bytes_per_row + j],
    ensures
        image_rows(dense_pixels(padded, dims), dims.unpadded_bytes_per_row as nat, dims.height as nat)
            == rows,
{
    let u = dims.unpadded_bytes_per_row as int;
    let h = dims.height as int;
    let img = dense_pixels(padded, dims);
    assert forall|i: int| 0 <= i < h implies #[trigger] img.subrange(i * u, i * u + u) == rows[i] by {
        assert(i * u + u <= h * u) by (nonlinear_arith)
            requires
                i < h,
                u >= 0,
        ;
        assert(0 <= i * u) by (nonlinear_arith)
            requires
                i >= 0,
                u >= 0,
        ;
        assert forall|j: int| 0 <= j < u implies #[trigger] img.subrange(i * u, i * u + u)[j]
            == rows[i][j] by {
            lemma_row_index(i, j, u);
        }
        assert(img.subrange(i * u, i * u + u) =~= rows[i]);
    }
    assert(image_rows(img, u as nat, h as nat) =~= rows);
}

/// The dense image depends only on the pixel bytes of each row: two readback
/// buffers that agree there give the same image, whatever their padding holds.
pub proof fn lemma_padding_ignored(a: Seq<u8>, b: Seq<u8>, dims: BufferDimensions)
    requires
        dims.wf(),
        a.len() >= dims.min_mapped_len(),
        b.len() >= dims.min_mapped_len(),
        forall|i: int, j: int|
            0 <= i < dims.height && 0 <= j < dims.unpadded_bytes_per_row ==> #[trigger] a[i
                * dims.padded_bytes_per_row + j] == b[i * dims.padded_bytes_per_row + j],
    ensures
        dense_pixels(a, dims) == dense_pixels(b, dims),
{
    let u = dims.unpadded_bytes_per_row as int;
    let p = dims.padded_bytes_per_row as int;
    let h = dims.height as int;
    assert forall|k: int| 0 <= k < h * u implies #[trigger] dense_pixels(a, dims)[k] == dense_pixels(
        b,
        dims,
    )[k] by {
        let i = k / u;
        let j = k % u;
        assert(u > 0);
        vstd::arithmetic::div_mod::lemma_fundamental_div_mod(k, u);
        assert(0 <= i < h && 0 <= j < u) by (nonlinear_arith)
            requires
                0 <= k < h * u,
                u > 0,
                k == u * i + j,
                0 <= j < u,
        ;
    }
    assert(dense_pixels(a, dims) =~= dense_pixels(b, dims));
}

} // verus!
