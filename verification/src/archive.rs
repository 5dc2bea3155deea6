//! Archives of tool distributions: where one came from, what can go wrong
//! while fetching it, and the size that an HTTP response announces.

use vstd::prelude::*;

use attohttpc::header::HeaderMap;
use headers::{ContentLength, HeaderMapExt};

use crate::text::{concat_text, copy_string, decimal_string, decimal_text};

verus! {

/// What can go wrong while fetching or unpacking an archive.
#[derive(Debug, PartialEq, Eq)]
pub enum ArchiveError {
    /// The server answered with this HTTP status.
    HttpError(u16),
    /// The response lacked the header of this name.
    MissingHeaderError(String),
    /// The response announced a length that was not expected.
    UnexpectedContentLengthError(u64),
    /// Reading or writing failed; the message says how.
    IoError(String),
    /// The HTTP client failed; the message says how.
    AttohttpcError(String),
    /// The zip archive was malformed; the message says how.
    ZipError(String),
}

/// Whether an archive comes from the local cache or from the network.
#[derive(Clone, Copy, Debug, PartialEq, Eq, Structural)]
pub enum Origin {
    Local,
    Remote,
}

/// The HTTP header map of the `http` crate, as `attohttpc` hands it out;
/// opaque to the verifier.
#[verifier::external_type_specification]
#[verifier::external_body]
#[verifier::reject_recursive_types(T)]
pub struct ExHeaderMap<T>(attohttpc::header::HeaderMap<T>);

/// A value of an HTTP header; opaque to the verifier.
#[verifier::external_type_specification]
#[verifier::external_body]
pub struct ExHeaderValue(attohttpc::header::HeaderValue);

/// The headers of a map: each lower-case header name with its values, in
/// the order they were added. Names without values are not in the domain.
pub uninterp spec fn header_entries(headers: HeaderMap) -> Map<Seq<char>, Seq<Seq<u8>>>;

/// The values of the header `name` among `entries`, in order; none if absent.
pub open spec fn values_named(entries: Map<Seq<char>, Seq<Seq<u8>>>, name: Seq<char>) -> Seq<
    Seq<u8>,
> {
    if entries.dom().contains(name) {
        entries[name]
    } else {
        Seq::empty()
    }
}

/// The values of the header `name` in `headers`, in order; none if absent.
pub open spec fn header_values(headers: HeaderMap, name: Seq<char>) -> Seq<Seq<u8>> {
    values_named(header_entries(headers), name)
}

/// A header value that can be read as text: tabs and visible ASCII only.
pub open spec fn visible_ascii(v: Seq<u8>) -> bool {
    forall|i: int| 0 <= i < v.len() ==> (v[i] == 9 || 32 <= #[trigger] v[i] < 127)
}

pub open spec fn is_decimal_digit(b: u8) -> bool {
    48 <= b <= 57
}

/// The number that the decimal digits `d` write.
pub open spec fn digits_value(d: Seq<u8>) -> int
    decreases d.len(),
{
    if d.len() == 0 {
        0
    } else {
        digits_value(d.drop_last()) * 10 + (d.last() - 48)
    }
}

/// `v` without a leading `+`, if it has one.
pub open spec fn without_plus(v: Seq<u8>) -> Seq<u8> {
    if v.len() > 0 && v[0] == 43 {
        v.drop_first()
    } else {
        v
    }
}

/// Every byte of `d` is a decimal digit.
pub open spec fn all_decimal_digits(d: Seq<u8>) -> bool {
    forall|i: int| 0 <= i < d.len() ==> is_decimal_digit(#[trigger] d[i])
}

/// `v` read as an unsigned 64-bit number, as `u64::from_str` reads it: an
/// optional `+` and then at least one decimal digit, with no overflow.
pub open spec fn decimal_u64(v: Seq<u8>) -> Option<u64> {
    if without_plus(v).len() > 0 && all_decimal_digits(without_plus(v)) && digits_value(
        without_plus(v),
    ) <= u64::MAX {
        Some(digits_value(without_plus(v)) as u64)
    } else {
        None
    }
}

/// The length that the `Content-Length` values announce: there is at least
/// one, each is a number, and all are the same number.
pub open spec fn content_length_value(values: Seq<Seq<u8>>) -> Option<u64> {
    if values.len() > 0 && (forall|i: int|
        0 <= i < values.len() ==> visible_ascii(#[trigger] values[i]) && decimal_u64(values[i])
            is Some && decimal_u64(values[i]) == decimal_u64(values[0])) {
        decimal_u64(values[0])
    } else {
        None
    }
}

/// The decoded `Content-Length` header of `headers`.
///
/// Trusted: calls `headers::HeaderMapExt::typed_get::<ContentLength>`, which
/// reads every `content-length` value as visible ASCII and then as a `u64`,
/// and gives a length only when all values parse and agree.
#[verifier::external_body]
fn typed_content_length(headers: &HeaderMap) -> (len: Option<u64>)
    ensures
        len == content_length_value(values_named(header_entries(*headers), "content-length"@)),
{
    match headers.typed_get::<ContentLength>() {
        Some(ContentLength(n)) => Some(n),
        None => None,
    }
}

/// Determines the length of an HTTP response's content in bytes, using the
/// `Content-Length` header; its absence (or a value that does not decode) is
/// a `MissingHeaderError` naming the header.
pub fn content_length(headers: &HeaderMap) -> (res: Result<u64, ArchiveError>)
    ensures
        match content_length_value(header_values(*headers, "content-length"@)) {
            Some(n) => res == Ok::<u64, ArchiveError>(n),
            None => res matches Err(ArchiveError::MissingHeaderError(h)) && h@
                == "content-length"@,
        },
{
    match typed_content_length(headers) {
        Some(n) => Ok(n),
        None => Err(ArchiveError::MissingHeaderError("content-length".to_owned())),
    }
}

/// How `http::StatusCode` displays `code`: the number, a space, and the
/// reason phrase the standard gives it (or `<unknown status code>`).
pub uninterp spec fn status_display(code: u16) -> Seq<char>;

/// Displays an HTTP status.
///
/// Trusted: calls `http::StatusCode::from_u16`, which accepts 100 to 999,
/// and then its `Display`, which writes the number, a space and the reason
/// phrase from a table. The text is named; beside the name stands the fact,
/// plain in its source, that it starts with the number and a space.
#[verifier::external_body]
fn status_text(code: u16) -> (s: String)
    requires
        100 <= code <= 999,
    ensures
        s@ == status_display(code),
        s@.take(decimal_text(code as nat).len() + 1int) == decimal_text(code as nat).push(' '),
{
    match attohttpc::StatusCode::from_u16(code) {
        Ok(status) => status.to_string(),
        Err(_) => String::new(),
    }
}

/// The message of an archive error, as the user sees it.
pub open spec fn archive_message(e: &ArchiveError) -> Seq<char> {
    match e {
        ArchiveError::HttpError(code) => "HTTP failure ("@ + status_display(*code) + ")"@,
        ArchiveError::MissingHeaderError(name) => "HTTP header '"@ + name@ + "' not found"@,
        ArchiveError::UnexpectedContentLengthError(n) =>
            "unexpected content length in HTTP response: "@ + decimal_text(*n as nat),
        ArchiveError::IoError(m) => m@,
        ArchiveError::AttohttpcError(m) => m@,
        ArchiveError::ZipError(m) => m@,
    }
}

impl ArchiveError {
    /// The message this error shows the user. An HTTP status must be a
    /// valid one (100 to 999).
    pub fn message(&self) -> (m: String)
        requires
            *self matches ArchiveError::HttpError(code) ==> 100 <= code <= 999,
        ensures
            m@ == archive_message(self),
    {
        match self {
            ArchiveError::HttpError(code) => concat_text(
                concat_text("HTTP failure (", status_text(*code).as_str()).as_str(),
                ")",
            ),
            ArchiveError::MissingHeaderError(name) => concat_text(
                concat_text("HTTP header '", name.as_str()).as_str(),
                "' not found",
            ),
            ArchiveError::UnexpectedContentLengthError(n) => concat_text(
                "unexpected content length in HTTP response: ",
                decimal_string(*n).as_str(),
            ),
            ArchiveError::IoError(m) => copy_string(m),
            ArchiveError::AttohttpcError(m) => copy_string(m),
            ArchiveError::ZipError(m) => copy_string(m),
        }
    }
}

} // verus!
