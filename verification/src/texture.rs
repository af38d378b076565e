//! Texture data validation.
//!
//! Uploading raw texture data to the GPU is the host application's concern;
//! the one rule worth checking — that a raw RGBA byte buffer matches its
//! claimed dimensions — is verified here, free of the arithmetic overflow a
//! direct 32-bit multiplication would risk.

use vstd::prelude::*;

verus! {

/// The number of bytes a raw RGBA texture of the given dimensions must
/// hold: four bytes (one per channel) for each of `width * height` pixels.
pub open spec fn rgba_data_len(width: u32, height: u32) -> int {
    (width as int) * (height as int) * 4
}

/// Whether a raw RGBA byte buffer of length `len` matches the claimed
/// `width` and `height`.
pub fn rgba_data_len_matches(width: u32, height: u32, len: usize) -> (b: bool)
    ensures
        b <==> len == rgba_data_len(width, height),
{
    proof {
        assert((width as int) * (height as int) <= 0xffff_ffff * 0xffff_ffff) by (nonlinear_arith)
            requires
                width <= 0xffff_ffffu32,
                height <= 0xffff_ffffu32,
        ;
    }
    let pixels: u64 = (width as u64) * (height as u64);
    let expected: u128 = (pixels as u128) * 4;
    (len as u128) == expected
}

} // verus!
