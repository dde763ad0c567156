use vstd::prelude::*;

verus! {

/// The tag of the high-dynamic-range output path: linear float values are
/// persisted directly, bypassing tone mapping and quantization. The byte
/// encoding and the file write are the external encoder collaborator's work.
pub struct ExrEncoder;

} // verus!
