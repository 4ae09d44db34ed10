use vstd::prelude::*;

verus! {

/// An I/O failure of std, carried through unchanged.
#[verifier::external_type_specification]
#[verifier::external_body]
pub struct ExIoError(std::io::Error);

/// A failure of the glTF importer, carried through unchanged.
#[verifier::external_type_specification]
#[verifier::external_body]
pub struct ExGltfError(gltf::Error);

/// A JSON encode or decode failure, carried through unchanged.
#[verifier::external_type_specification]
#[verifier::external_body]
pub struct ExJsonError(serde_json::Error);

/// Every failure of the library.
#[derive(Debug)]
pub enum ModelParserError {
    FileReadError(std::io::Error),
    GltfError(gltf::Error),
    UnsupportedFormat(String),
    NoMeshData,
    InvalidPointCount(usize),
    SerializationError(serde_json::Error),
}

} // verus!
