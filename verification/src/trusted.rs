//! What the library takes from other crates and believes of it.

use time::format_description::well_known::Rfc3339;
use vstd::prelude::*;

verus! {

/// The error of a request that could not be sent or whose answer could not be read.
#[verifier::external_type_specification]
#[verifier::external_body]
pub struct ExReqwestError(reqwest::Error);

/// The error of a source of server-sent events.
#[verifier::external_type_specification]
#[verifier::external_body]
pub struct ExEventSourceError(reqwest_eventsource::Error);

/// The error of a text that is no timestamp.
#[verifier::external_type_specification]
#[verifier::external_body]
pub struct ExTimeParse(time::error::Parse);

/// The error of a text that is no JSON of the expected type.
#[verifier::external_type_specification]
#[verifier::external_body]
pub struct ExJsonError(serde_json::Error);

/// The instant that an RFC 3339 text tells, in nanoseconds since the Unix epoch, and the
/// offset from UTC at which it tells it, in seconds.
pub uninterp spec fn rfc3339_instant(text: Seq<char>) -> Option<(i128, i32)>;

/// `time::OffsetDateTime::parse` with the `Rfc3339` format, then
/// `unix_timestamp_nanos` and the `whole_seconds` of `offset`: whether a text is a
/// timestamp, and which instant it tells at which offset, depends on the text alone.
#[verifier::external_body]
pub(crate) fn parse_rfc3339(text: &str) -> (instant: Result<(i128, i32), time::error::Parse>)
    ensures
        match instant {
            Ok(told) => rfc3339_instant(text@) == Some(told),
            Err(_) => rfc3339_instant(text@) is None,
        },
{
    time::OffsetDateTime::parse(text, &Rfc3339)
        .map(|instant| (instant.unix_timestamp_nanos(), instant.offset().whole_seconds()))
}

/// The white space of JSON.
pub open spec fn json_space(c: char) -> bool {
    c == ' ' || c == '\n' || c == '\t' || c == '\r'
}

/// A text without the white space around it.
pub open spec fn trimmed(text: Seq<char>) -> Seq<char>
    decreases text.len(),
{
    if text.len() > 0 && json_space(text[0]) {
        trimmed(text.drop_first())
    } else if text.len() > 0 && json_space(text.last()) {
        trimmed(text.drop_last())
    } else {
        text
    }
}

/// The number that decimal digits stand for.
pub open spec fn number_of(digits: Seq<char>) -> nat
    decreases digits.len(),
{
    if digits.len() == 0 {
        0
    } else {
        number_of(digits.drop_last()) * 10 + (digits.last() as nat - '0' as nat) as nat
    }
}

/// Decimal digits, at least one, without a zero in front of others.
pub open spec fn plain_digits(digits: Seq<char>) -> bool {
    &&& digits.len() > 0
    &&& forall|i: int| 0 <= i < digits.len() ==> '0' <= #[trigger] digits[i] <= '9'
    &&& digits.len() > 1 ==> digits[0] != '0'
}

/// The integer below 2^32 that a JSON text holds: white space may stand around its
/// digits, and nothing else.
pub open spec fn json_u32(text: Seq<char>) -> Option<u32> {
    let digits = trimmed(text);
    if plain_digits(digits) && number_of(digits) <= u32::MAX {
        Some(number_of(digits) as u32)
    } else {
        None
    }
}

/// `serde_json::from_str` for `u32`: the value of plain decimal digits with white space
/// around them where it is below 2^32, and an error for every other text, also for one
/// with a sign, a fraction or an exponent.
#[verifier::external_body]
pub(crate) fn parse_json_u32(text: &str) -> (value: Result<u32, serde_json::Error>)
    ensures
        match value {
            Ok(n) => json_u32(text@) == Some(n),
            Err(_) => json_u32(text@) is None,
        },
{
    serde_json::from_str::<u32>(text)
}

/// An HTTP status as it is shown: the code and its reason phrase.
pub uninterp spec fn status_phrase(code: u16) -> Seq<char>;

/// The `Display` of `reqwest::StatusCode`: the code in decimal, a space and a
/// phrase that depends on the code alone. `from_u16` refuses a code outside 100 to
/// 999.
#[verifier::external_body]
pub(crate) fn show_status(code: u16) -> (text: String)
    requires
        100 <= code <= 999,
    ensures
        text@ == status_phrase(code),
        (crate::text::decimal(code as nat) + seq![' ']).is_prefix_of(text@),
{
    reqwest::StatusCode::from_u16(code).unwrap().to_string()
}

/// The character of a byte below 128.
pub open spec fn ascii(bytes: Seq<u8>) -> Seq<char> {
    Seq::new(bytes.len(), |i: int| bytes[i] as char)
}

/// A byte that a readable header value may hold: a printable ASCII character or a
/// tab.
pub open spec fn readable(byte: u8) -> bool {
    32 <= byte < 127 || byte == 9
}

/// `reqwest::header::HeaderValue::to_str`: the text of a header value whose bytes
/// are all printable ASCII characters or tabs, and nothing for any other value.
#[verifier::external_body]
pub(crate) fn header_text(value: &[u8]) -> (text: Option<String>)
    ensures
        match text {
            Some(s) => (forall|i: int| 0 <= i < value@.len() ==> readable(#[trigger] value@[i]))
                && s@ == ascii(value@),
            None => exists|i: int| 0 <= i < value@.len() && !readable(#[trigger] value@[i]),
        },
{
    let value = reqwest::header::HeaderValue::from_bytes(value).ok()?;
    value.to_str().ok().map(|text| text.to_string())
}

/// The text of bytes, with what is no UTF-8 replaced.
pub uninterp spec fn utf8_lossy(bytes: Seq<u8>) -> Seq<char>;

/// `String::from_utf8_lossy`: the text of the bytes where they are UTF-8, and
/// otherwise one with replacement characters that depends on the bytes alone.
#[verifier::external_body]
pub(crate) fn lossy_text(bytes: &[u8]) -> (text: String)
    ensures
        text@ == utf8_lossy(bytes@),
        vstd::utf8::valid_utf8(bytes@) ==> text@ == vstd::utf8::decode_utf8(bytes@),
{
    String::from_utf8_lossy(bytes).into_owned()
}

/// The `Display` of `reqwest::Error`. Nothing is known of the text.
#[verifier::external_body]
pub(crate) fn show_reqwest_error(error: &reqwest::Error) -> String {
    error.to_string()
}

/// The `Display` of `reqwest_eventsource::Error`. Nothing is known of the text.
#[verifier::external_body]
pub(crate) fn show_source_error(error: &reqwest_eventsource::Error) -> String {
    error.to_string()
}

/// Calls a function that shows something, so that its outcome can be spoken of.
fn shown_by<E, F: Fn(&E) -> String>(show: F, value: &E) -> (text: String)
    requires
        call_requires(show, (value,)),
    ensures
        call_ensures(show, (value,), text),
{
    show(value)
}

/// A text is one by which the `Display` of a transport error shows it. It need not be the
/// only one.
pub closed spec fn shows_transport(error: reqwest::Error, shown: Seq<char>) -> bool {
    exists|text: String|
        #[trigger] call_ensures(show_reqwest_error, (&error,), text) && text@ == shown
}

/// The text of a transport error.
pub(crate) fn transport_text(error: &reqwest::Error) -> (text: String)
    ensures
        shows_transport(*error, text@),
{
    shown_by(show_reqwest_error, error)
}

/// A text is one by which the `Display` of a source error shows it. It need not be the
/// only one.
pub closed spec fn shows_source(error: reqwest_eventsource::Error, shown: Seq<char>) -> bool {
    exists|text: String|
        #[trigger] call_ensures(show_source_error, (&error,), text) && text@ == shown
}

/// The text of a source error.
pub(crate) fn source_text(error: &reqwest_eventsource::Error) -> (text: String)
    ensures
        shows_source(*error, text@),
{
    shown_by(show_source_error, error)
}

} // verus!
