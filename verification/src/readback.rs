//! The CPU readback fallback.
//!
//! When the host cannot import GPU textures directly, the rendered texture is
//! copied into a CPU-mappable staging buffer and handed to the host as plain
//! pixels. The copy uses a row pitch padded to the GPU's row alignment, so the
//! mapped bytes carry per-row padding that must be stripped before the image
//! is interpreted as tightly packed `width * height * 4` bytes.

use vstd::prelude::*;

use crate::errors::TickError;
use crate::surface::RenderSurface;

verus! {

/// The GPU-imposed row alignment of buffer copies, in bytes.
pub const ROW_ALIGNMENT: u64 = 256;

/// The padded row pitch for a row of `width` RGBA8 pixels: the least multiple
/// of `ROW_ALIGNMENT` that holds `width * 4` bytes.
pub open spec fn spec_padded_stride(width: u32) -> int {
    ((width * 4 + 255) / 256) * 256
}

/// Position of row `r`, byte `c` in a tightly packed image of `width` pixels
/// per row.
pub open spec fn tight_pos(width: u32, r: int, c: int) -> int {
    r * (width * 4) + c
}

/// Position of row `r`, byte `c` in a padded image whose rows are `stride`
/// bytes apart.
pub open spec fn padded_pos(stride: int, r: int, c: int) -> int {
    r * stride + c
}

/// Compute the padded row pitch for a row of `width` RGBA8 pixels.
pub fn padded_row_stride(width: u32) -> (stride: u64)
    requires
        width >= 1,
    ensures
        stride == spec_padded_stride(width),
        stride % ROW_ALIGNMENT == 0,
        4 * width <= stride < 4 * width + ROW_ALIGNMENT,
{
    let bytes: u64 = (width as u64) * 4;
    let stride: u64 = ((bytes + (ROW_ALIGNMENT - 1)) / ROW_ALIGNMENT) * ROW_ALIGNMENT;
    stride
}

/// The CPU-visible staging buffer backing the readback of one surface; it is
/// recreated alongside its surface on every resize, sized to the padded row
/// pitch times the surface height.
pub struct ReadbackBuffer {
    /// Row pitch of the texture-to-buffer copy, in bytes.
    pub padded_stride: u64,
    /// Number of rows, equal to the surface height.
    pub height: u32,
}

impl ReadbackBuffer {
    /// The buffer is sized for the given surface.
    pub open spec fn sized_for(self, surface: RenderSurface) -> bool {
        &&& self.padded_stride == spec_padded_stride(surface.width)
        &&& self.height == surface.height
    }

    /// Allocate a staging buffer sized for `surface`.
    pub fn create(surface: &RenderSurface) -> (b: ReadbackBuffer)
        requires
            surface.wf(),
        ensures
            b.sized_for(*surface),
    {
        ReadbackBuffer { padded_stride: padded_row_stride(surface.width), height: surface.height }
    }
}

/// Strip the per-row padding out of a mapped staging buffer, producing the
/// tightly packed `width * height * 4`-byte image: row `r` of the result is
/// the first `width * 4` bytes of row `r` of the padded buffer, and no padding
/// byte leaks into the result.
pub fn strip_row_padding(padded: &Vec<u8>, width: u32, height: u32, padded_stride: u64) -> (tight:
    Vec<u8>)
    requires
        width >= 1,
        height >= 1,
        padded_stride == spec_padded_stride(width),
        padded@.len() == padded_stride * height,
    ensures
        tight@.len() == width * height * 4,
        forall|r: int, c: int|
            0 <= r < height && 0 <= c < width * 4 ==> #[trigger] tight@[tight_pos(width, r, c)]
                == padded@[padded_pos(padded_stride as int, r, c)],
{
    let total: usize = padded.len();
    let row_bytes: u64 = (width as u64) * 4;
    proof {
        assert(row_bytes <= padded_stride);
        vstd::arithmetic::mul::lemma_mul_basics(padded_stride as int);
        vstd::arithmetic::mul::lemma_mul_inequality(1, height as int, padded_stride as int);
        vstd::arithmetic::mul::lemma_mul_is_commutative(padded_stride as int, height as int);
        assert(padded_stride <= total);
    }
    let stride: usize = padded_stride as usize;
    let row_len: usize = row_bytes as usize;
    let mut tight: Vec<u8> = Vec::new();
    let mut pos: usize = 0;
    let mut r: u32 = 0;
    while r < height
        invariant
            r <= height,
            row_bytes == width * 4,
            width >= 1,
            height >= 1,
            row_bytes <= padded_stride,
            stride == padded_stride,
            row_len == row_bytes,
            total == padded@.len(),
            padded@.len() == padded_stride * height,
            pos == r * padded_stride,
            tight@.len() == r * row_bytes,
            forall|rr: int, cc: int|
                0 <= rr < r && 0 <= cc < width * 4 ==> #[trigger] tight@[tight_pos(width, rr, cc)]
                    == padded@[padded_pos(padded_stride as int, rr, cc)],
        decreases height - r,
    {
        proof {
            vstd::arithmetic::mul::lemma_mul_inequality(
                r + 1,
                height as int,
                padded_stride as int,
            );
            vstd::arithmetic::mul::lemma_mul_is_distributive_add_other_way(
                padded_stride as int,
                r as int,
                1,
            );
            vstd::arithmetic::mul::lemma_mul_basics(padded_stride as int);
            vstd::arithmetic::mul::lemma_mul_is_commutative(padded_stride as int, height as int);
            assert(pos + padded_stride <= padded@.len());
        }
        let mut c: usize = 0;
        while c < row_len
            invariant
                c <= row_bytes,
                r < height,
                row_bytes == width * 4,
                row_len == row_bytes,
                width >= 1,
                row_bytes <= padded_stride,
                stride == padded_stride,
                total == padded@.len(),
                padded@.len() == padded_stride * height,
                pos == r * padded_stride,
                pos + padded_stride <= padded@.len(),
                tight@.len() == r * row_bytes + c,
                forall|rr: int, cc: int|
                    0 <= rr < r && 0 <= cc < width * 4 ==> #[trigger] tight@[tight_pos(
                        width,
                        rr,
                        cc,
                    )] == padded@[padded_pos(padded_stride as int, rr, cc)],
                forall|cc: int|
                    0 <= cc < c ==> #[trigger] tight@[tight_pos(width, r as int, cc)]
                        == padded@[padded_pos(padded_stride as int, r as int, cc)],
            decreases row_bytes - c,
        {
            let ghost prev = tight@;
            let byte: u8 = padded[pos + c];
            tight.push(byte);
            proof {
                let w4 = (width * 4) as int;
                assert(tight@ == prev.push(byte));
                assert(tight_pos(width, r as int, c as int) == prev.len());
                assert forall|rr: int, cc: int|
                    0 <= rr < r && 0 <= cc < width * 4 implies #[trigger] tight@[tight_pos(
                    width,
                    rr,
                    cc,
                )] == padded@[padded_pos(padded_stride as int, rr, cc)] by {
                    vstd::arithmetic::mul::lemma_mul_inequality(rr + 1, r as int, w4);
                    vstd::arithmetic::mul::lemma_mul_is_distributive_add_other_way(w4, rr, 1);
                    vstd::arithmetic::mul::lemma_mul_basics(w4);
                    assert(tight_pos(width, rr, cc) < prev.len());
                    assert(tight@[tight_pos(width, rr, cc)] == prev[tight_pos(width, rr, cc)]);
                }
                assert forall|cc: int| 0 <= cc <= c implies #[trigger] tight@[tight_pos(
                    width,
                    r as int,
                    cc,
                )] == padded@[padded_pos(padded_stride as int, r as int, cc)] by {
                    if cc < c {
                        assert(tight_pos(width, r as int, cc) < prev.len());
                        assert(tight@[tight_pos(width, r as int, cc)] == prev[tight_pos(
                            width,
                            r as int,
                            cc,
                        )]);
                    } else {
                        assert(tight@[tight_pos(width, r as int, cc)] == byte);
                        assert(padded_pos(padded_stride as int, r as int, cc) == pos + c);
                    }
                }
            }
            c = c + 1;
        }
        proof {
            vstd::arithmetic::mul::lemma_mul_is_distributive_add_other_way(
                row_bytes as int,
                r as int,
                1,
            );
            vstd::arithmetic::mul::lemma_mul_is_distributive_add_other_way(
                padded_stride as int,
                r as int,
                1,
            );
            vstd::arithmetic::mul::lemma_mul_basics(row_bytes as int);
            vstd::arithmetic::mul::lemma_mul_basics(padded_stride as int);
            assert((r + 1) * row_bytes == r * row_bytes + row_bytes);
            assert forall|rr: int, cc: int|
                0 <= rr < r + 1 && 0 <= cc < width * 4 implies #[trigger] tight@[tight_pos(
                width,
                rr,
                cc,
            )] == padded@[padded_pos(padded_stride as int, rr, cc)] by {
                if rr == r {
                    assert(tight@[tight_pos(width, rr, cc)] == padded@[padded_pos(
                        padded_stride as int,
                        rr,
                        cc,
                    )]);
                }
            }
        }
        pos = pos + stride;
        r = r + 1;
    }
    proof {
        vstd::arithmetic::mul::lemma_mul_is_associative(height as int, width as int, 4);
        vstd::arithmetic::mul::lemma_mul_is_commutative(height as int, width as int);
        vstd::arithmetic::mul::lemma_mul_is_associative(width as int, height as int, 4);
        assert(height * row_bytes == width * height * 4);
    }
    tight
}

/// Finish a readback: `mapped` is the outcome of blocking on the one-shot
/// GPU-completion signal — the mapped staging bytes when the signal arrived,
/// or nothing when the channel closed first. A missing signal is a fatal
/// `ReadbackAbort` for this tick and the buffer is never interpreted;
/// otherwise the per-row padding is stripped and the tight image returned.
pub fn finish_read(mapped: Option<Vec<u8>>, width: u32, height: u32, padded_stride: u64) -> (out:
    Result<Vec<u8>, TickError>)
    requires
        width >= 1,
        height >= 1,
        padded_stride == spec_padded_stride(width),
        mapped matches Some(b) ==> b@.len() == padded_stride * height,
    ensures
        mapped is None <==> out == Result::<Vec<u8>, TickError>::Err(TickError::ReadbackAbort),
        mapped matches Some(b) ==> out matches Ok(tight) && tight@.len() == width * height * 4
            && forall|r: int, c: int|
            0 <= r < height && 0 <= c < width * 4 ==> #[trigger] tight@[tight_pos(width, r, c)]
                == b@[padded_pos(padded_stride as int, r, c)],
{
    match mapped {
        Option::None => Result::Err(TickError::ReadbackAbort),
        Option::Some(buffer) => Result::Ok(
            strip_row_padding(&buffer, width, height, padded_stride),
        ),
    }
}

} // verus!
