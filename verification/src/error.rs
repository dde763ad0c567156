use vstd::prelude::*;

verus! {

/// The failures the core computation can signal.
///
/// The core is total on valid inputs: projection, sampling and tone mapping
/// never fail. The only failure classes are structural — a face buffer whose
/// dimensions do not match the requested square size, and a requested
/// allocation whose texel count would not fit in `usize`.
#[derive(Clone, Copy, Debug, PartialEq, Eq, Structural)]
pub enum Eq2cError {
    /// A buffer had dimensions other than the ones expected.
    InvalidDimensions,
    /// A buffer's size, computed from face size and layout multiplier,
    /// would overflow `usize`; the core refuses to allocate.
    SizeOverflow,
}

impl Eq2cError {
    /// A human-readable description of the failure.
    pub fn message(&self) -> (r: &'static str)
        ensures
            self is InvalidDimensions ==> r@ == "invalid layout dimensions"@,
            self is SizeOverflow ==> r@ == "image dimensions too large"@,
    {
        match self {
            Eq2cError::InvalidDimensions => "invalid layout dimensions",
            Eq2cError::SizeOverflow => "image dimensions too large",
        }
    }
}

} // verus!
