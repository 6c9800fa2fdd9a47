use vstd::prelude::*;

verus! {

/// Why an account's data could not be decoded.
#[derive(Debug, Clone, Copy, PartialEq, Eq, Structural)]
pub enum DecodeError {
    /// The data is not a well-formed, initialized token mint.
    DecodeMintFailed,
    /// The data is not a well-formed token metadata record, or one of its
    /// strings is longer than its field allows.
    DecodeMetadataDataFailed,
}

} // verus!
