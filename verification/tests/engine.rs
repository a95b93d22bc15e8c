use s3same::base64::b64_encode;
use s3same::compare::{are_same_after_fetch, are_same_after_read, CompareStep};
use s3same::errors::{AreSameError, ObjectChecksumError, ToU64Error};
use s3same::fetch::{
    object_checksum_request, object_checksum_response, ChecksumAttributes, FetchStep,
    ObjectAttributesResponse,
};
use s3same::{bytes_checksum, Checksum, ChecksumType, S3Uri};

fn locator(key: &str) -> S3Uri {
    S3Uri { bucket: "circus".to_owned(), key: key.to_owned() }
}

fn attribute_of(digest: u64) -> ObjectAttributesResponse {
    let text = String::from_utf8(b64_encode(&digest.to_be_bytes())).unwrap();
    ObjectAttributesResponse::Attributes(Some(ChecksumAttributes {
        checksum_crc64_nvme: Some(text),
    }))
}

/// Runs the whole engine against an in-memory store double, counting how often
/// the local content is read.
fn run_engine(
    uri: &S3Uri,
    response: &ObjectAttributesResponse,
    local: &[u8],
    reads: &mut u32,
) -> Result<bool, AreSameError> {
    let fetched = object_checksum_response(uri, response);
    match are_same_after_fetch(fetched) {
        CompareStep::Done(r) => r,
        CompareStep::ReadLocal(remote) => {
            *reads += 1;
            are_same_after_read(&remote, Ok(local.to_vec()))
        }
    }
}

#[test]
fn missing_key_fails_before_any_store_call() {
    let step = object_checksum_request(&locator(""));
    match step {
        FetchStep::Fail(ObjectChecksumError::UriHasNoKey(u)) => {
            assert_eq!(u.bucket, "circus");
            assert_eq!(u.key, "");
        }
        other => panic!("expected UriHasNoKey, got {other:?}"),
    }
}

#[test]
fn present_key_queries_the_checksum_attribute() {
    let step = object_checksum_request(&locator("clowns.jpg"));
    assert_eq!(step, FetchStep::Query("ChecksumCRC64NVME".to_owned()));
}

#[test]
fn absent_object_is_an_error() {
    let r = object_checksum_response(&locator("clowns.jpg"), &ObjectAttributesResponse::NoSuchKey);
    match r {
        Err(ObjectChecksumError::ObjectNotFound(u)) => assert_eq!(u.key, "clowns.jpg"),
        other => panic!("expected ObjectNotFound, got {other:?}"),
    }
}

#[test]
fn absent_checksum_attribute_is_not_an_error() {
    let uri = locator("clowns.jpg");
    let no_attributes = ObjectAttributesResponse::Attributes(None);
    assert_eq!(object_checksum_response(&uri, &no_attributes), Ok(None));

    let no_crc64nvme =
        ObjectAttributesResponse::Attributes(Some(ChecksumAttributes { checksum_crc64_nvme: None }));
    assert_eq!(object_checksum_response(&uri, &no_crc64nvme), Ok(None));
}

#[test]
fn advertised_digest_is_decoded() {
    let r = object_checksum_response(&locator("clowns.jpg"), &attribute_of(0x0123456789ABCDEF));
    assert_eq!(r, Ok(Some(Checksum::Crc64Nvme(0x0123456789ABCDEF))));
}

#[test]
fn malformed_digest_is_an_error() {
    let corrupt = ObjectAttributesResponse::Attributes(Some(ChecksumAttributes {
        checksum_crc64_nvme: Some("not base64!!".to_owned()),
    }));
    let r = object_checksum_response(&locator("clowns.jpg"), &corrupt);
    assert!(matches!(
        r,
        Err(ObjectChecksumError::ToU64Error(ToU64Error::DecodeError(_)))
    ));
}

#[test]
fn wrong_width_digest_is_an_error() {
    let short = ObjectAttributesResponse::Attributes(Some(ChecksumAttributes {
        checksum_crc64_nvme: Some("AQID".to_owned()),
    }));
    let r = object_checksum_response(&locator("clowns.jpg"), &short);
    assert!(matches!(
        r,
        Err(ObjectChecksumError::ToU64Error(ToU64Error::ConversionError(_)))
    ));
}

#[test]
fn store_failure_is_propagated() {
    let failure = ObjectAttributesResponse::ServiceError("throttled".to_owned());
    let r = object_checksum_response(&locator("clowns.jpg"), &failure);
    match r {
        Err(ObjectChecksumError::GetObjectAttributesError(m)) => assert_eq!(m, "throttled"),
        other => panic!("expected GetObjectAttributesError, got {other:?}"),
    }
}

#[test]
fn same_content_compares_equal() {
    let content = b"hello world!";
    let Checksum::Crc64Nvme(digest) = bytes_checksum(ChecksumType::Crc64Nvme, content);
    let mut reads: u32 = 0;
    let r = run_engine(&locator("clowns.jpg"), &attribute_of(digest), content, &mut reads);
    assert_eq!(r, Ok(true));
    assert_eq!(reads, 1);
}

#[test]
fn different_content_compares_unequal() {
    let content = b"hello world!";
    let Checksum::Crc64Nvme(digest) = bytes_checksum(ChecksumType::Crc64Nvme, content);
    let mut reads: u32 = 0;
    let r = run_engine(
        &locator("clowns.jpg"),
        &attribute_of(digest.wrapping_add(1)),
        content,
        &mut reads,
    );
    assert_eq!(r, Ok(false));
    assert_eq!(reads, 1);
}

#[test]
fn no_checksum_means_not_same_and_no_local_read() {
    let response = ObjectAttributesResponse::Attributes(None);
    let mut reads: u32 = 0;
    let r = run_engine(&locator("clowns.jpg"), &response, b"anything", &mut reads);
    assert_eq!(r, Ok(false));
    assert_eq!(reads, 0);
}

#[test]
fn fetch_failure_ends_the_comparison() {
    let fetched = object_checksum_response(&locator("clowns.jpg"), &ObjectAttributesResponse::NoSuchKey);
    match are_same_after_fetch(fetched) {
        CompareStep::Done(Err(AreSameError::ObjectChecksumError(
            ObjectChecksumError::ObjectNotFound(u),
        ))) => assert_eq!(u.key, "clowns.jpg"),
        other => panic!("expected a terminal fetch error, got {other:?}"),
    }
}

#[test]
fn local_read_failure_preserves_its_cause() {
    let remote = Checksum::Crc64Nvme(1);
    let r = are_same_after_read(&remote, Err("permission denied".to_owned()));
    match r {
        Err(AreSameError::FileChecksumError(m)) => assert_eq!(m, "permission denied"),
        other => panic!("expected FileChecksumError, got {other:?}"),
    }
}
