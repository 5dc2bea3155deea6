use attohttpc::header::{HeaderMap, HeaderValue, CONTENT_LENGTH, CONTENT_TYPE};
use volta::archive::{content_length, ArchiveError};

#[test]
fn content_length_reads_the_header() {
    let mut headers = HeaderMap::new();
    headers.insert(CONTENT_LENGTH, HeaderValue::from_static("3495"));
    assert_eq!(content_length(&headers), Ok(3495));
}

#[test]
fn content_length_missing_header_errors() {
    let mut headers = HeaderMap::new();
    headers.insert(CONTENT_TYPE, HeaderValue::from_static("application/gzip"));
    assert_eq!(
        content_length(&headers),
        Err(ArchiveError::MissingHeaderError("content-length".to_string()))
    );
}

#[test]
fn content_length_repeated_equal_values() {
    let mut headers = HeaderMap::new();
    headers.append(CONTENT_LENGTH, HeaderValue::from_static("5"));
    headers.append(CONTENT_LENGTH, HeaderValue::from_static("5"));
    assert_eq!(content_length(&headers), Ok(5));
}

#[test]
fn content_length_conflicting_values_error() {
    let mut headers = HeaderMap::new();
    headers.append(CONTENT_LENGTH, HeaderValue::from_static("5"));
    headers.append(CONTENT_LENGTH, HeaderValue::from_static("6"));
    assert_eq!(
        content_length(&headers),
        Err(ArchiveError::MissingHeaderError("content-length".to_string()))
    );
}

#[test]
fn content_length_number_forms() {
    let mut plus = HeaderMap::new();
    plus.insert(CONTENT_LENGTH, HeaderValue::from_static("+7"));
    assert_eq!(content_length(&plus), Ok(7));
    let mut bad = HeaderMap::new();
    bad.insert(CONTENT_LENGTH, HeaderValue::from_static("34v95"));
    assert!(content_length(&bad).is_err());
    let mut big = HeaderMap::new();
    big.insert(CONTENT_LENGTH, HeaderValue::from_static("18446744073709551616"));
    assert!(content_length(&big).is_err());
    let mut max = HeaderMap::new();
    max.insert(CONTENT_LENGTH, HeaderValue::from_static("18446744073709551615"));
    assert_eq!(content_length(&max), Ok(u64::MAX));
}

#[test]
fn archive_error_messages() {
    assert_eq!(
        ArchiveError::MissingHeaderError("content-length".to_string()).message(),
        "HTTP header 'content-length' not found"
    );
    assert_eq!(ArchiveError::HttpError(404).message(), "HTTP failure (404 Not Found)");
    assert_eq!(ArchiveError::HttpError(599).message(), "HTTP failure (599 <unknown status code>)");
    assert_eq!(
        ArchiveError::UnexpectedContentLengthError(1234).message(),
        "unexpected content length in HTTP response: 1234"
    );
    assert_eq!(ArchiveError::IoError("disk full".to_string()).message(), "disk full");
}

#[test]
fn missing_content_length_message() {
    let headers = HeaderMap::new();
    let err = content_length(&headers).unwrap_err();
    assert_eq!(err.message(), "HTTP header 'content-length' not found");
}
