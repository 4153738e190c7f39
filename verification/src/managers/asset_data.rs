//! The raw data of an asset and its parse as a glTF document.
use vstd::prelude::*;

verus! {

#[verifier::external_type_specification]
#[verifier::external_body]
pub struct ExGltf(gltf::Gltf);

/// The data an asset ships as: its glTF text, its binary buffer and its
/// base colour image.
pub struct AssetData {
    pub gltf: Vec<u8>,
    pub bin: Vec<u8>,
    pub png: Vec<u8>,
}

/// The validated glTF document that `data` parses to, or `None` where it is
/// not a valid glTF (JSON or binary) document.
pub uninterp spec fn parsed_gltf(data: Seq<u8>) -> Option<gltf::Gltf>;

/// Binary glTF data (it begins with the magic `glTF`) whose header gives a
/// total length below the header's own 12 bytes: the little-endian `u32` at
/// bytes 8 to 12 is below 12.
pub open spec fn glb_header_too_short(data: Seq<u8>) -> bool {
    &&& data.len() >= 12
    &&& data[0] == 0x67u8 && data[1] == 0x6cu8 && data[2] == 0x54u8 && data[3] == 0x46u8
    &&& data[8] < 12 && data[9] == 0 && data[10] == 0 && data[11] == 0
}

/// Parses glTF data with `gltf::Gltf::from_slice`, which reads JSON or
/// binary glTF and validates the document. The result depends on the bytes
/// alone and is named `parsed_gltf`; what a valid document is, is left to
/// the glTF crate. Binary data whose header gives a length below 12 makes
/// the crate subtract past zero, which panics where overflow is checked, so
/// it is not admitted.
#[verifier::external_body]
pub fn parse_gltf(data: &[u8]) -> (res: Option<gltf::Gltf>)
    requires
        !glb_header_too_short(data@),
    ensures
        res == parsed_gltf(data@),
{
    gltf::Gltf::from_slice(data).ok()
}

/// The document that `data` holds: none where the binary header is too
/// short, and otherwise what it parses to.
pub open spec fn gltf_document(data: Seq<u8>) -> Option<gltf::Gltf> {
    if glb_header_too_short(data) {
        None
    } else {
        parsed_gltf(data)
    }
}

/// Whether `data` is binary glTF whose header gives a length below 12.
pub fn has_short_glb_header(data: &[u8]) -> (res: bool)
    ensures
        res == glb_header_too_short(data@),
{
    data.len() >= 12 && data[0] == 0x67u8 && data[1] == 0x6cu8 && data[2] == 0x54u8 && data[3]
        == 0x46u8 && data[8] < 12 && data[9] == 0 && data[10] == 0 && data[11] == 0
}

/// The glTF document that `data` holds, if any: binary data with a header
/// too short to hold itself is refused, and anything else is parsed.
pub fn read_gltf(data: &[u8]) -> (res: Option<gltf::Gltf>)
    ensures
        res == gltf_document(data@),
{
    if has_short_glb_header(data) {
        None
    } else {
        parse_gltf(data)
    }
}

} // verus!
