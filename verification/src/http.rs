//! The few facts about HTTP that this library takes from `reqwest` unproved.

use vstd::prelude::*;
use vstd::string::*;

verus! {

/// The status the service gives a job that is still running.
pub const ACCEPTED: u16 = 202;

/// The status that carries a finished payload.
pub const OK: u16 = 200;

/// Whether `code` lies in the range that `reqwest::StatusCode` can hold.
pub open spec fn representable_status(code: u16) -> bool {
    100 <= code <= 999
}

/// Whether a header value may carry the byte `b`: anything but a control
/// character, the horizontal tab excepted.
pub open spec fn header_byte_ok(b: u8) -> bool {
    (b >= 32 && b != 127) || b == 9
}

/// Whether every byte of `bytes` may stand in a header value.
pub open spec fn header_bytes_ok(bytes: Seq<u8>) -> bool {
    forall|i: int| 0 <= i < bytes.len() ==> header_byte_ok(#[trigger] bytes[i])
}

/// The text that `reqwest::StatusCode` displays for `code`: its number, a
/// space, and its canonical reason phrase. The table of phrases is not
/// restated here.
pub uninterp spec fn status_line(code: u16) -> Seq<char>;

/// `reqwest::StatusCode::is_success` on the status built from `code`: true
/// exactly for the codes from 200 to 299.
#[verifier::external_body]
pub(crate) fn status_code_is_success(code: u16) -> (ok: bool)
    requires
        representable_status(code),
    ensures
        ok == (200 <= code < 300),
{
    reqwest::StatusCode::from_u16(code).unwrap().is_success()
}

/// `ToString::to_string` on the `reqwest::StatusCode` built from `code`. The
/// result is a function of the code alone and is known here only by name.
#[verifier::external_body]
pub(crate) fn status_code_to_string(code: u16) -> (text: String)
    requires
        representable_status(code),
    ensures
        text@ == status_line(code),
{
    reqwest::StatusCode::from_u16(code).unwrap().to_string()
}

/// `reqwest::header::HeaderValue::from_str`, reduced to whether it accepts
/// `value`: it does exactly when no byte of the string is a control character
/// other than the tab.
#[verifier::external_body]
pub(crate) fn header_value_accepts(value: &str) -> (ok: bool)
    ensures
        ok == header_bytes_ok(value.spec_bytes()),
{
    reqwest::header::HeaderValue::from_str(value).is_ok()
}

/// Whether `code` is a success status, for any 16-bit code.
pub fn is_success(code: u16) -> (ok: bool)
    ensures
        ok == (200 <= code < 300),
{
    100 <= code && code <= 999 && status_code_is_success(code)
}

/// The text of a status, as `reqwest` displays it: the number and the
/// canonical reason phrase. A code that no status can hold has no text.
pub fn describe_status(code: u16) -> (text: Option<String>)
    ensures
        representable_status(code) ==> (text matches Some(t) && t@ == status_line(code)),
        !representable_status(code) ==> text is None,
{
    if 100 <= code && code <= 999 {
        Some(status_code_to_string(code))
    } else {
        None
    }
}

} // verus!
