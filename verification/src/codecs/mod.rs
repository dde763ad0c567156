use vstd::prelude::*;
use crate::error::Eq2cError;

pub mod exr;
pub mod tonemap;

pub use tonemap::ToneMapType;

verus! {

/// The serialization family the external encoder writes: quantized 8-bit
/// (low dynamic range) or linear-float (high dynamic range) output.
#[derive(Clone, Copy, Debug, PartialEq, Eq, Structural)]
pub enum OutputFormat {
    Png,
    Exr,
}

/// The byte length of the interleaved 8-bit RGB buffer the quantizer fills
/// for a `width`-by-`height` image: three bytes per pixel. Refuses
/// dimensions whose byte count would overflow `usize` rather than wrapping.
pub fn ldr_buffer_len(width: usize, height: usize) -> (r: Result<usize, Eq2cError>)
    ensures
        width * height * 3 <= usize::MAX ==> (r matches Ok(n) && n == width * height * 3),
        width * height * 3 > usize::MAX ==> (r matches Err(e) && e == Eq2cError::SizeOverflow),
{
    let count = match width.checked_mul(height) {
        Some(c) => c,
        None => {
            proof {
                assert(width * height * 3 > usize::MAX) by (nonlinear_arith)
                    requires
                        width * height > usize::MAX,
                ;
            }
            return Err(Eq2cError::SizeOverflow);
        },
    };
    match count.checked_mul(3) {
        Some(total) => Ok(total),
        None => Err(Eq2cError::SizeOverflow),
    }
}

} // verus!
