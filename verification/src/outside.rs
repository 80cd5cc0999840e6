//! The outside functions that the backend calls, with what they are taken to do.
use vstd::prelude::*;

verus! {

/// A cookie, carried through as it is.
#[verifier::external_type_specification]
#[verifier::external_body]
pub struct ExCookie<'c>(cookie::Cookie<'c>);

/// The URI of a request.
#[verifier::external_type_specification]
#[verifier::external_body]
pub struct ExUri(http::Uri);

/// The headers of a request.
#[verifier::external_type_specification]
#[verifier::external_body]
#[verifier::reject_recursive_types(T)]
pub struct ExHeaderMap<T>(http::HeaderMap<T>);

/// The value of a header.
#[verifier::external_type_specification]
#[verifier::external_body]
pub struct ExHeaderValue(http::HeaderValue);

/// The error of a header value that is no visible text.
#[verifier::external_type_specification]
#[verifier::external_body]
pub struct ExToStrError(http::header::ToStrError);

/// The handle of a native window.
#[verifier::external_type_specification]
#[verifier::external_body]
pub struct ExRawWindowHandle(raw_window_handle::RawWindowHandle);

/// The error of a window that gives no handle.
#[verifier::external_type_specification]
#[verifier::external_body]
pub struct ExHandleError(raw_window_handle::HandleError);

/// The error of a call into Java.
#[verifier::external_type_specification]
#[verifier::external_body]
pub struct ExJniError(jni::errors::Error);

/// The error of an answer that does not come.
#[verifier::external_type_specification]
#[verifier::external_body]
pub struct ExRecvTimeoutError(crossbeam_channel::RecvTimeoutError);

/// What `cookie::Cookie::parse` makes of a text; `None` where it reports an error.
pub uninterp spec fn parsed_cookie(text: Seq<char>) -> Option<cookie::Cookie<'static>>;

/// Calls `cookie::Cookie::parse`. The cookie, or the lack of one, depends on the text alone.
#[verifier::external_body]
pub(crate) fn parse_cookie(text: String) -> (r: Option<cookie::Cookie<'static>>)
    ensures
        r == parsed_cookie(text@),
{
    cookie::Cookie::parse(text).ok()
}

/// What `http::Uri` prints for a URI.
pub uninterp spec fn uri_text(uri: http::Uri) -> Seq<char>;

/// Calls the `Display` implementation of `http::Uri`. The text depends on the URI alone.
#[verifier::external_body]
pub(crate) fn uri_to_text(uri: &http::Uri) -> (r: String)
    ensures
        r@ == uri_text(*uri),
{
    uri.to_string()
}

/// What `http::Uri` reads from a text; `None` where it reports an error.
pub uninterp spec fn parsed_uri(text: Seq<char>) -> Option<http::Uri>;

/// Calls the `FromStr` implementation of `http::Uri`. The URI, or the lack of one, depends on the
/// text alone.
#[verifier::external_body]
pub(crate) fn parse_uri(text: &str) -> (r: Option<http::Uri>)
    ensures
        r == parsed_uri(text@),
{
    text.parse::<http::Uri>().ok()
}

/// The names and the value bytes that a walk over a header map meets, in the order of the walk.
pub uninterp spec fn header_walk(headers: http::HeaderMap) -> Seq<(Seq<char>, Seq<u8>)>;

/// The bytes of a header value, as `http::HeaderValue::as_bytes` gives them.
pub uninterp spec fn header_value_bytes(value: http::HeaderValue) -> Seq<u8>;

/// Calls `http::HeaderMap::iter` and hands out what it yields: each name once for each of its
/// values.
#[verifier::external_body]
pub(crate) fn header_entries(headers: &http::HeaderMap) -> (r: Vec<(String, http::HeaderValue)>)
    ensures
        r@.len() == header_walk(*headers).len(),
        forall|i: int|
            0 <= i < r@.len() ==> (#[trigger] r@[i]).0@ == header_walk(*headers)[i].0
                && header_value_bytes(r@[i].1) == header_walk(*headers)[i].1,
{
    headers.iter().map(|(name, value)| (name.as_str().to_string(), value.clone())).collect()
}

/// Whether a byte of a header value is visible text: an ASCII character from the space to the
/// tilde, or a tab.
pub open spec fn visible(b: u8) -> bool {
    32 <= b < 127 || b == 9
}

/// `http::HeaderValue::to_str` gives the text of a value whose bytes are all visible, and an
/// error for any other value.
pub assume_specification[ http::HeaderValue::to_str ](value: &http::HeaderValue) -> (r: Result<
    &str,
    http::header::ToStrError,
>)
    ensures
        r is Ok <==> forall|i: int|
            0 <= i < header_value_bytes(*value).len() ==> visible(
                #[trigger] header_value_bytes(*value)[i],
            ),
        r matches Ok(text) ==> text@ == header_value_bytes(*value).map_values(|b: u8| b as char),
;

/// Whether a handle is the `AndroidNdk` variant of `raw_window_handle::RawWindowHandle`.
pub uninterp spec fn is_android_ndk_handle(handle: raw_window_handle::RawWindowHandle) -> bool;

/// Tells the `AndroidNdk` variant of `raw_window_handle::RawWindowHandle` from all the others.
#[verifier::external_body]
pub(crate) fn is_android_ndk(handle: &raw_window_handle::RawWindowHandle) -> (r: bool)
    ensures
        r == is_android_ndk_handle(*handle),
{
    matches!(handle, raw_window_handle::RawWindowHandle::AndroidNdk(_))
}

} // verus!
