//! Errors of the record store.

use vstd::prelude::*;
use crate::codec::PngMetadataError;

verus! {

/// Why a store operation failed.
#[derive(Debug)]
pub enum StoreError {
    /// The record, or its file, does not exist.
    NotFound,
    /// Malformed base64, UTF-8, data URL or JSON.
    InvalidFormat,
    /// The bytes are not an image that can be decoded.
    ImageDecodeError,
    /// The image could not be encoded as PNG.
    ImageEncodeError,
    /// A PNG portrait's embedded profile could not be read or written.
    CardData(PngMetadataError),
}

} // verus!
