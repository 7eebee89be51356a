use vstd::prelude::*;
use vstd::arithmetic::div_mod::{lemma_fundamental_div_mod, lemma_mod_multiples_basic};
use crate::error::CaptureError;

verus! {

/// Bytes of one pixel of the 8-bit RGBA format.
pub const BYTES_PER_PIXEL: usize = 4;

/// The smallest multiple of `align` that is at least `unpadded`.
pub open spec fn padded_row_len(unpadded: nat, align: nat) -> nat {
    if align == 0 || unpadded % align == 0 {
        unpadded
    } else {
        (unpadded + (align - unpadded % align)) as nat
    }
}

/// Dimensions that can be captured: both positive, the padded stride fits
/// the `u32` of a copy layout, the height fits a texture extent, the whole
/// readback buffer is addressable, and the encoder's working size (a filter
/// byte and the pixels of each row) stays within half the address space.
pub open spec fn dims_valid(width: nat, height: nat, align: nat) -> bool {
    &&& width > 0
    &&& height > 0
    &&& height <= u32::MAX
    &&& padded_row_len(width * 4, align) <= u32::MAX
    &&& padded_row_len(width * 4, align) * height <= usize::MAX
    &&& (width * 4 + 1) * height <= usize::MAX / 2
}

/// Relies on wgpu::COPY_BYTES_PER_ROW_ALIGNMENT, declared in wgpu-types as
/// `256`: the multiple that a buffer's `bytes_per_row` must be in a
/// texture-to-buffer copy.
#[verifier::external_body]
fn copy_row_alignment() -> (r: u32)
    ensures
        r == 256,
{
    wgpu::COPY_BYTES_PER_ROW_ALIGNMENT
}

/// The layout of a readback buffer that holds one `width` x `height` RGBA
/// image with every row padded to the device's row alignment.
#[derive(Clone, Copy, Debug, PartialEq, Eq, Structural)]
pub struct BufferDimensions {
    pub width: usize,
    pub height: usize,
    pub unpadded_bytes_per_row: usize,
    pub padded_bytes_per_row: usize,
    pub align: usize,
}

impl BufferDimensions {
    pub open spec fn wf(&self) -> bool {
        &&& self.align > 0
        &&& dims_valid(self.width as nat, self.height as nat, self.align as nat)
        &&& self.unpadded_bytes_per_row == self.width * 4
        &&& self.padded_bytes_per_row == padded_row_len(
            self.unpadded_bytes_per_row as nat,
            self.align as nat,
        )
    }

    /// Bytes of the whole readback buffer: `height` padded rows.
    pub open spec fn buffer_len(&self) -> nat {
        (self.padded_bytes_per_row * self.height) as nat
    }

    /// Bytes that must be readable to take every pixel row: the last row
    /// needs no padding after it.
    pub open spec fn min_mapped_len(&self) -> nat {
        ((self.height - 1) * self.padded_bytes_per_row + self.unpadded_bytes_per_row) as nat
    }

    /// The layout for `width` x `height` under the copy row alignment of the
    /// device layer (256 bytes).
    pub fn new(width: usize, height: usize) -> (r: Result<Self, CaptureError>)
        ensures
            dims_valid(width as nat, height as nat, 256) <==> r is Ok,
            r matches Err(e) ==> e == CaptureError::InvalidDimensions,
            r matches Ok(d) ==> d.wf() && d.width == width && d.height == height && d.align
                == 256,
    {
        let align = copy_row_alignment();
        Self::with_alignment(width, height, align)
    }

    /// The layout for `width` x `height` with rows padded to a multiple of `align`.
    pub fn with_alignment(width: usize, height: usize, align: u32) -> (r: Result<
        Self,
        CaptureError,
    >)
        requires
            align > 0,
        ensures
            dims_valid(width as nat, height as nat, align as nat) <==> r is Ok,
            r matches Err(e) ==> e == CaptureError::InvalidDimensions,
            r matches Ok(d) ==> d.wf() && d.width == width && d.height == height && d.align
                == align,
    {
        if width == 0 || height == 0 || height as u64 > u32::MAX as u64 {
            return Err(CaptureError::InvalidDimensions);
        }
        let a = align as u64;
        if width as u64 > (u32::MAX as u64) / 4 {
            proof {
                lemma_padded_row_bounds(width as nat, align as nat);
            }
            return Err(CaptureError::InvalidDimensions);
        }
        let unpadded = width as u64 * 4;
        let rem = unpadded % a;
        let padded = if rem == 0 {
            unpadded
        } else {
            unpadded + (a - rem)
        };
        if padded > u32::MAX as u64 {
            return Err(CaptureError::InvalidDimensions);
        }
        if height as u64 > (usize::MAX as u64) / padded {
            proof {
                lemma_padded_row_bounds(width as nat, align as nat);
                assert(padded * height > usize::MAX) by (nonlinear_arith)
                    requires
                        height > (usize::MAX as u64) / padded,
                        padded > 0,
                ;
            }
            return Err(CaptureError::InvalidDimensions);
        }
        let half: u64 = (usize::MAX / 2) as u64;
        let filtered_row = unpadded + 1;
        if height as u64 > half / filtered_row {
            proof {
                assert((unpadded + 1) * height > usize::MAX / 2) by (nonlinear_arith)
                    requires
                        height > half / filtered_row,
                        filtered_row == unpadded + 1,
                        half == usize::MAX / 2,
                ;
            }
            return Err(CaptureError::InvalidDimensions);
        }
        proof {
            assert((unpadded + 1) * height <= usize::MAX / 2) by (nonlinear_arith)
                requires
                    height <= half / filtered_row,
                    filtered_row == unpadded + 1,
                    half == usize::MAX / 2,
            ;
            lemma_padded_row_bounds(width as nat, align as nat);
            assert(padded * height <= usize::MAX) by (nonlinear_arith)
                requires
                    height <= (usize::MAX as u64) / padded,
                    padded > 0,
            ;
        }
        Ok(
            BufferDimensions {
                width,
                height,
                unpadded_bytes_per_row: unpadded as usize,
                padded_bytes_per_row: padded as usize,
                align: align as usize,
            },
        )
    }

    /// Bytes of the whole readback buffer.
    pub fn buffer_size(&self) -> (r: usize)
        requires
            self.wf(),
        ensures
            r == self.buffer_len(),
    {
        self.padded_bytes_per_row * self.height
    }
}

/// For every width > 0 and alignment > 0 the padded stride is a multiple of
/// the alignment, no shorter than the pixel row, and less than one alignment
/// step longer than it.
pub proof fn lemma_padded_row_bounds(width: nat, align: nat)
    requires
        width > 0,
        align > 0,
    ensures
        padded_row_len(width * 4, align) % align == 0,
        width * 4 <= padded_row_len(width * 4, align) < width * 4 + align,
{
    let u = width * 4;
    lemma_fundamental_div_mod(u as int, align as int);
    if u % align != 0 {
        let q = u / align;
        assert(padded_row_len(u, align) == (q + 1) * align) by (nonlinear_arith)
            requires
                u == align * q + u % align,
                padded_row_len(u, align) == u + (align - u % align),
        ;
        lemma_mod_multiples_basic((q + 1) as int, align as int);
    }
}

/// A row whose length is already a multiple of the alignment gets no padding.
pub proof fn lemma_aligned_row_unpadded(width: nat, align: nat)
    requires
        align > 0,
        (width * 4) % align == 0,
    ensures
        padded_row_len(width * 4, align) == width * 4,
{
}

} // verus!
