//! Mining a ledger for fungible token mints and their metadata records.
//!
//! The library holds the logic of the pipeline: decoding account data,
//! deriving metadata addresses, classifying mints, joining mints with their
//! metadata, projecting token-list entries and partitioning them, finding the
//! metadata records that await a creator's signature, together with the
//! decisions of the rate limiter and of the retried submission. Network, file
//! and thread work is done by the caller.
mod errors;
pub mod address;
pub mod creators;
pub mod decode;
pub mod gumdrop;
pub mod limiter;
pub mod opt;
pub mod parse;
pub mod spl;
pub mod submit;
pub mod text;

pub use errors::DecodeError;
