use vstd::prelude::*;

verus! {

/// The selectable tone-mapping curves the quantizer applies to compress
/// linear high-dynamic-range radiance into the displayable `[0, 1]` range:
/// simple per-channel Reinhard, the fitted ACES approximation, the Khronos
/// PBR-neutral desaturating compressor, AgX, or no curve at all — `Clamp`
/// passes values through and only clamps each channel to `[0, 1]`.
///
/// The curves themselves are floating-point maps and are evaluated by the
/// numeric collaborator; this type is the configuration surface that selects
/// among them.
#[derive(Clone, Copy, Debug, PartialEq, Eq, Structural)]
pub enum ToneMapType {
    Reinhard,
    Aces,
    Khronos,
    Agx,
    Clamp,
}

} // verus!
