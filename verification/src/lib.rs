//! Decides whether a local file and a remote object hold the same bytes by
//! comparing checksums: the digest advertised in the object's metadata against
//! the digest computed over the file's content.

use vstd::prelude::*;

pub mod base64;
pub mod compare;
pub mod errors;
pub mod fetch;

verus! {

/// A computed checksum.
#[derive(Clone, Copy, Debug, PartialEq, Eq, Structural)]
pub enum Checksum {
    /// A CRC-64/NVME checksum.
    Crc64Nvme(u64),
}

/// Checksum type.
#[derive(Clone, Copy, Debug, PartialEq, Eq, Structural)]
pub enum ChecksumType {
    Crc64Nvme,
}

/// The algorithm tag of a checksum value.
pub open spec fn spec_checksum_type(checksum: Checksum) -> ChecksumType {
    match checksum {
        Checksum::Crc64Nvme(_) => ChecksumType::Crc64Nvme,
    }
}

/// The algorithm tag of a checksum value.
pub fn checksum_type(checksum: &Checksum) -> (t: ChecksumType)
    ensures
        t == spec_checksum_type(*checksum),
{
    match checksum {
        Checksum::Crc64Nvme(_) => ChecksumType::Crc64Nvme,
    }
}

/// The CRC-64/NVME digest of a byte sequence.
pub uninterp spec fn crc64nvme_of(bytes: Seq<u8>) -> u64;

/// Relies on `crc64fast_nvme::Digest` (`new`, `write`, `sum64`): the CRC-64/NVME
/// digest, a pure function of the bytes written. `new` starts the state at `!0`
/// and `sum64` returns the negated state, so the digest of no bytes is 0.
#[verifier::external_body]
fn crc64nvme_digest(bytes: &[u8]) -> (r: u64)
    ensures
        r == crc64nvme_of(bytes@),
        bytes@.len() == 0 ==> r == 0,
{
    let mut digest = crc64fast_nvme::Digest::new();
    digest.write(bytes);
    digest.sum64()
}

/// The checksum of a byte sequence under the given algorithm.
pub open spec fn spec_checksum(t: ChecksumType, bytes: Seq<u8>) -> Checksum {
    match t {
        ChecksumType::Crc64Nvme => Checksum::Crc64Nvme(crc64nvme_of(bytes)),
    }
}

/// Digests a buffer with the given algorithm and tags the result with it.
pub fn bytes_checksum(t: ChecksumType, bytes: &[u8]) -> (r: Checksum)
    ensures
        r == spec_checksum(t, bytes@),
        spec_checksum_type(r) == t,
        t == ChecksumType::Crc64Nvme && bytes@.len() == 0 ==> r == Checksum::Crc64Nvme(0u64),
{
    match t {
        ChecksumType::Crc64Nvme => Checksum::Crc64Nvme(crc64nvme_digest(bytes)),
    }
}

/// The digest is a pure function of the content: a byte sequence has one
/// checksum per algorithm, however often it is computed.
pub proof fn lemma_checksum_deterministic(t: ChecksumType, a: Seq<u8>, b: Seq<u8>)
    requires
        a == b,
    ensures
        spec_checksum(t, a) == spec_checksum(t, b),
{
}

/// The metadata field that carries the digest of the given algorithm in the
/// remote store's object attributes.
pub fn remote_attribute_name(t: ChecksumType) -> (r: String)
    ensures
        match t {
            ChecksumType::Crc64Nvme => r@ == "ChecksumCRC64NVME"@,
        },
{
    match t {
        ChecksumType::Crc64Nvme => "ChecksumCRC64NVME".to_owned(),
    }
}

/// Identifies an object in the remote store by bucket and key.
#[derive(Debug, PartialEq, Eq)]
pub struct S3Uri {
    /// Bucket name.
    pub bucket: String,
    /// Key; a locator whose key is empty names no object.
    pub key: String,
}

impl Clone for S3Uri {
    fn clone(&self) -> (r: Self)
        ensures
            r.bucket@ == self.bucket@,
            r.key@ == self.key@,
    {
        S3Uri { bucket: self.bucket.clone(), key: self.key.clone() }
    }
}

} // verus!
