//! Retrieval of an object's checksum from the remote store's metadata.
//!
//! The store call itself is the caller's: the functions here decide, from
//! plain values, whether a query may be issued and what the store's answer
//! means, so an in-memory double exercises them as well as a live store.

use vstd::prelude::*;

verus! {

use vstd::utf8::encode_utf8;

use crate::base64::{b64_u64, is_b64_u64, to_u64};
use crate::errors::ObjectChecksumError;
use crate::{remote_attribute_name, Checksum, ChecksumType, S3Uri};

/// The checksum attributes a store reports for an object, one field per
/// algorithm, each a base64 digest text.
#[derive(Debug, PartialEq, Eq)]
pub struct ChecksumAttributes {
    /// The CRC-64/NVME digest, when the object advertises one.
    pub checksum_crc64_nvme: Option<String>,
}

/// A store's answer to a metadata-attributes query.
#[derive(Debug, PartialEq, Eq)]
pub enum ObjectAttributesResponse {
    /// The object exists; its checksum attributes, when any were recorded.
    Attributes(Option<ChecksumAttributes>),
    /// The store holds no object under the queried key.
    NoSuchKey,
    /// Any other store-level failure, rendered as text.
    ServiceError(String),
}

/// What the fetcher should do for a locator, decided before any store call.
#[derive(Debug, PartialEq, Eq)]
pub enum FetchStep {
    /// Issue the metadata-attributes query, asking for this attribute.
    Query(String),
    /// Fail without a store call.
    Fail(ObjectChecksumError),
}

/// Decides whether a checksum query may be issued for the locator: a locator
/// without a key is a caller error, answered before any store call.
pub fn object_checksum_request(uri: &S3Uri) -> (r: FetchStep)
    ensures
        uri.key@.len() == 0 ==> (r matches FetchStep::Fail(e) && (e matches
        ObjectChecksumError::UriHasNoKey(u) && u.bucket@ == uri.bucket@ && u.key@ == uri.key@)),
        uri.key@.len() > 0 ==> (r matches FetchStep::Query(a) && a@ == "ChecksumCRC64NVME"@),
{
    if uri.key.as_str().is_empty() {
        FetchStep::Fail(ObjectChecksumError::UriHasNoKey(uri.clone()))
    } else {
        FetchStep::Query(remote_attribute_name(ChecksumType::Crc64Nvme))
    }
}

/// Interprets the store's answer: an absent object is an error, an object
/// without a checksum attribute is `Ok(None)`, an advertised digest is decoded,
/// and a digest that does not decode is an error.
pub fn object_checksum_response(uri: &S3Uri, response: &ObjectAttributesResponse) -> (r: Result<
    Option<Checksum>,
    ObjectChecksumError,
>)
    ensures
        response is NoSuchKey ==> (r matches Err(e) && (e matches
        ObjectChecksumError::ObjectNotFound(u) && u.bucket@ == uri.bucket@ && u.key@ == uri.key@)),
        response matches ObjectAttributesResponse::ServiceError(t) ==> (r matches Err(e) && (e
            matches ObjectChecksumError::GetObjectAttributesError(m) && m@ == t@)),
        response matches ObjectAttributesResponse::Attributes(a) ==> match a {
            None => r == Ok::<Option<Checksum>, ObjectChecksumError>(None),
            Some(ca) => match ca.checksum_crc64_nvme {
                None => r == Ok::<Option<Checksum>, ObjectChecksumError>(None),
                Some(text) => if is_b64_u64(encode_utf8(text@)) {
                    r == Ok::<Option<Checksum>, ObjectChecksumError>(
                        Some(Checksum::Crc64Nvme(b64_u64(encode_utf8(text@)))),
                    )
                } else {
                    r matches Err(e) && e is ToU64Error
                },
            },
        },
{
    match response {
        ObjectAttributesResponse::NoSuchKey => Err(
            ObjectChecksumError::ObjectNotFound(uri.clone()),
        ),
        ObjectAttributesResponse::ServiceError(t) => Err(
            ObjectChecksumError::GetObjectAttributesError(t.clone()),
        ),
        ObjectAttributesResponse::Attributes(a) => match a {
            None => Ok(None),
            Some(ca) => match &ca.checksum_crc64_nvme {
                None => Ok(None),
                Some(text) => match to_u64(text.as_str()) {
                    Ok(digest) => Ok(Some(Checksum::Crc64Nvme(digest))),
                    Err(e) => Err(ObjectChecksumError::ToU64Error(e)),
                },
            },
        },
    }
}

} // verus!
