//! The equivalence decision engine: fetch the remote checksum, digest the
//! local content with the same algorithm, compare.
//!
//! The two outside effects — the store query and the file read — are the
//! caller's; the engine decides each step from plain values, and in
//! particular decides `Ok(false)` without asking for the local content when
//! the remote object advertises no checksum.

use vstd::prelude::*;

verus! {

use crate::errors::{AreSameError, ObjectChecksumError};
use crate::{bytes_checksum, checksum_type, spec_checksum, spec_checksum_type, Checksum};

/// The engine's next action once the remote answer is in.
#[derive(Debug, PartialEq, Eq)]
pub enum CompareStep {
    /// Terminal: the comparison ended without touching the local content.
    Done(Result<bool, AreSameError>),
    /// Read the local content and digest it with this remote checksum's
    /// algorithm.
    ReadLocal(Checksum),
}

/// Decides from the fetched remote checksum whether the local content is
/// needed at all: a fetch failure and an absent checksum are both terminal,
/// the latter as `Ok(false)` — unverifiable, not an error.
pub fn are_same_after_fetch(fetched: Result<Option<Checksum>, ObjectChecksumError>) -> (r:
    CompareStep)
    ensures
        fetched matches Ok(Some(c)) ==> r == CompareStep::ReadLocal(c),
        fetched matches Ok(None) ==> r == CompareStep::Done(
            Ok::<bool, AreSameError>(false),
        ),
        fetched matches Err(e) ==> r == CompareStep::Done(
            Err::<bool, AreSameError>(AreSameError::ObjectChecksumError(e)),
        ),
{
    match fetched {
        Ok(Some(c)) => CompareStep::ReadLocal(c),
        Ok(None) => CompareStep::Done(Ok(false)),
        Err(e) => CompareStep::Done(Err(AreSameError::ObjectChecksumError(e))),
    }
}

/// Finishes the comparison once the local content was read: digests it with
/// the remote checksum's algorithm and compares; a read failure is terminal
/// with its cause preserved.
pub fn are_same_after_read(remote: &Checksum, local: Result<Vec<u8>, String>) -> (r: Result<
    bool,
    AreSameError,
>)
    ensures
        local matches Ok(bytes) ==> (r matches Ok(same) && same == (*remote == spec_checksum(
            spec_checksum_type(*remote),
            bytes@,
        ))),
        local matches Err(m) ==> (r matches Err(e) && (e matches AreSameError::FileChecksumError(
            m2,
        ) && m2@ == m@)),
{
    match local {
        Ok(bytes) => {
            let local_checksum = bytes_checksum(checksum_type(remote), bytes.as_slice());
            Ok(*remote == local_checksum)
        },
        Err(m) => Err(AreSameError::FileChecksumError(m)),
    }
}

/// A remote digest equal to the digest of the local bytes makes the engine's
/// comparison come out true: the checksum the fetcher yields for such a digest
/// is the checksum the engine computes over those bytes.
pub proof fn lemma_end_to_end_same(digest: u64, bytes: Seq<u8>)
    requires
        digest == crate::crc64nvme_of(bytes),
    ensures
        Checksum::Crc64Nvme(digest) == spec_checksum(
            spec_checksum_type(Checksum::Crc64Nvme(digest)),
            bytes,
        ),
{
}

/// A remote digest different from the digest of the local bytes makes the
/// comparison come out false: no two distinct digests name the same checksum.
pub proof fn lemma_end_to_end_different(digest: u64, bytes: Seq<u8>)
    requires
        digest != crate::crc64nvme_of(bytes),
    ensures
        Checksum::Crc64Nvme(digest) != spec_checksum(
            spec_checksum_type(Checksum::Crc64Nvme(digest)),
            bytes,
        ),
{
}

} // verus!
