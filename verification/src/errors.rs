//! The error taxonomy: each failure is surfaced distinctly, so a caller can
//! tell a corrupt digest from an absent object from a store-level fault.

use vstd::prelude::*;

verus! {

use crate::S3Uri;

/// Why a digest string could not be converted to a `u64`.
#[derive(Debug, PartialEq, Eq)]
pub enum ToU64Error {
    /// The text decoded, but not to the width of the digest.
    ConversionError(String),
    /// The text was not valid standard base64.
    DecodeError(String),
}

/// Why no checksum could be fetched for an object.
#[derive(Debug, PartialEq, Eq)]
pub enum ObjectChecksumError {
    /// The store reported a failure other than an absent object.
    GetObjectAttributesError(String),
    /// The store holds no object under the locator.
    ObjectNotFound(S3Uri),
    /// The advertised digest text did not decode.
    ToU64Error(ToU64Error),
    /// The locator carries no key; no store call is made for it.
    UriHasNoKey(S3Uri),
}

/// Why no comparison between a local file and a remote object was possible.
#[derive(Debug, PartialEq, Eq)]
pub enum AreSameError {
    /// The local file could not be read.
    FileChecksumError(String),
    /// The remote checksum could not be fetched.
    ObjectChecksumError(ObjectChecksumError),
}

} // verus!
