//! The calls into other crates and into parts of `std` that carry no contract of their own.

use vstd::prelude::*;
use vstd::utf8::{decode_utf8, valid_utf8};
use crate::moment::Moment;
use crate::text::{has_part, is_white, seen};

verus! {

/// What `chrono::DateTime::parse_from_rfc3339` reads from a text.
pub uninterp spec fn rfc3339_moment(text: Seq<char>) -> Option<Moment>;

/// Calls `chrono::DateTime::parse_from_rfc3339` and takes the instant in UTC. The result
/// depends on the text alone, and is an instant that chrono can hold.
#[verifier::external_body]
pub(crate) fn parse_rfc3339(text: &str) -> (r: Option<Moment>)
    ensures
        r == rfc3339_moment(text@),
        r matches Some(t) ==> is_instant(t),
{
    match chrono::DateTime::parse_from_rfc3339(text) {
        Ok(t) => Some(Moment { secs: t.timestamp(), nanos: t.timestamp_subsec_nanos() }),
        Err(_) => None,
    }
}

/// The first second that chrono can hold.
pub const FIRST_SECOND: i64 = -8_334_601_228_800;

/// The last second that chrono can hold.
pub const LAST_SECOND: i64 = 8_210_266_876_799;

/// Whether chrono can hold an instant. The nanoseconds of a leap second go on from those of the
/// last second of a minute.
pub open spec fn is_instant(t: Moment) -> bool {
    &&& FIRST_SECOND <= t.secs <= LAST_SECOND
    &&& t.nanos < 1_000_000_000 || (t.nanos < 2_000_000_000 && t.secs as int % 60 == 59)
}

/// What `chrono::DateTime::to_rfc3339_opts` writes for an instant.
pub uninterp spec fn rfc3339_text(t: Moment) -> Seq<char>;

/// Calls `chrono::DateTime::from_timestamp` and, on its result, `to_rfc3339_opts` with
/// `AutoSi` and `Z`. The text depends on the instant alone. It begins with a digit or a
/// sign and ends with `Z`. For a year of four digits `parse_from_rfc3339` reads the instant back.
#[verifier::external_body]
pub(crate) fn write_rfc3339(t: Moment) -> (r: String)
    requires
        is_instant(t),
    ensures
        r@ == rfc3339_text(t),
        r@.len() > 1,
        !is_white(r@[0]),
        r@.last() == 'Z',
        -62_167_219_200 <= t.secs <= 253_402_300_799 ==> rfc3339_moment(r@) == Some(t),
{
    chrono::DateTime::from_timestamp(t.secs, t.nanos).unwrap_or_default().to_rfc3339_opts(
        chrono::SecondsFormat::AutoSi,
        true,
    )
}

/// Whether the clock may say `t`: an instant that chrono can hold, in no leap second and not
/// before 1970.
pub open spec fn is_reading(t: Moment) -> bool {
    is_instant(t) && t.nanos < 1_000_000_000 && t.secs >= 0
}

/// Calls `chrono::Utc::now`. The instant is one that chrono can hold, in no leap second and not
/// before 1970; which one, the clock says.
#[verifier::external_body]
pub(crate) fn clock() -> (r: Moment)
    ensures
        is_reading(r),
{
    let t = chrono::Utc::now();
    Moment { secs: t.timestamp(), nanos: t.timestamp_subsec_nanos() }
}

/// Calls `chrono::DateTime::from_timestamp` without nanoseconds: every second from
/// `FIRST_SECOND` to `LAST_SECOND` is an instant, and no other.
#[verifier::external_body]
pub(crate) fn moment_of_second(secs: i64) -> (r: Option<Moment>)
    ensures
        r == (if FIRST_SECOND <= secs <= LAST_SECOND {
            Some(Moment { secs, nanos: 0 })
        } else {
            None
        }),
{
    match chrono::DateTime::from_timestamp(secs, 0) {
        Some(t) => Some(Moment { secs: t.timestamp(), nanos: t.timestamp_subsec_nanos() }),
        None => None,
    }
}

/// What `uuid::Uuid::parse_str` reads from a text.
pub uninterp spec fn uuid_number(text: Seq<char>) -> Option<u128>;

/// Calls `uuid::Uuid::parse_str`. The result depends on the text alone.
#[verifier::external_body]
pub(crate) fn parse_uuid(text: &str) -> (r: Option<u128>)
    ensures
        r == uuid_number(text@),
{
    match uuid::Uuid::parse_str(text) {
        Ok(id) => Some(id.as_u128()),
        Err(_) => None,
    }
}

/// What `uuid::Uuid` shows itself as.
pub uninterp spec fn uuid_text(id: u128) -> Seq<char>;

/// Calls `uuid::Uuid::from_u128` and shows the result, which is the hyphenated form in small
/// letters: 36 characters. `uuid::Uuid::parse_str` reads it back.
#[verifier::external_body]
pub(crate) fn write_uuid(id: u128) -> (r: String)
    ensures
        r@ == uuid_text(id),
        r@.len() == 36,
        uuid_number(r@) == Some(id),
{
    uuid::Uuid::from_u128(id).to_string()
}

/// Calls `uuid::Uuid::new_v4`. Nothing is claimed of the number, which is random.
#[verifier::external_body]
pub(crate) fn fresh_uuid() -> (r: u128)
{
    uuid::Uuid::new_v4().as_u128()
}

/// What the URL-safe alphabet of the base64 crate decodes bytes to.
pub uninterp spec fn base64_url_bytes(text: Seq<u8>) -> Option<Seq<u8>>;

/// Calls `decode` of `base64::engine::general_purpose::URL_SAFE`. The result depends on the
/// bytes alone.
#[verifier::external_body]
pub(crate) fn decode_base64_url(text: &[u8]) -> (r: Option<Vec<u8>>)
    ensures
        r matches Some(bytes) ==> base64_url_bytes(text@) == Some(bytes@),
        r is None <==> base64_url_bytes(text@) is None,
{
    base64::Engine::decode(&base64::engine::general_purpose::URL_SAFE, text).ok()
}

/// What the standard alphabet of the base64 crate encodes bytes to.
pub uninterp spec fn base64_text(bytes: Seq<u8>) -> Seq<char>;

/// Calls `encode` of `base64::engine::general_purpose::STANDARD`. The result depends on the
/// bytes alone.
#[verifier::external_body]
pub(crate) fn encode_base64(bytes: &[u8]) -> (r: String)
    ensures
        r@ == base64_text(bytes@),
{
    base64::Engine::encode(&base64::engine::general_purpose::STANDARD, bytes)
}

/// Calls `std::path::absolute`, and hands the path back where that fails, as it does for the
/// empty path. So the result is empty for that path alone; beyond that it depends on the
/// directory that the process runs in, and nothing more is claimed.
#[verifier::external_body]
pub(crate) fn absolute_path(path: &str) -> (r: String)
    ensures
        path@.len() == 0 <==> r@.len() == 0,
{
    std::path::absolute(path).map(|p| p.to_string_lossy().to_string()).unwrap_or(path.to_string())
}

/// Whether a path is one part by itself, on every machine: neither the directory `.` nor `..`,
/// and without what separates parts or ends the name of a drive.
pub open spec fn single_part(path: Seq<char>) -> bool {
    &&& path.len() > 0
    &&& path != "."@
    &&& path != ".."@
    &&& !path.contains('/')
    &&& !path.contains('\\')
    &&& !path.contains(':')
}

/// Calls `std::path::Path::file_name`, which gives the last part of a path. That is never empty
/// and stands in the path, and a path of one part is its own last part. What separates the parts
/// depends on the machine, so nothing more is claimed.
#[verifier::external_body]
pub(crate) fn path_file_name(path: &str) -> (r: Option<String>)
    ensures
        r matches Some(name) ==> name@.len() > 0,
        r matches Some(name) ==> has_part(path@, name@),
        single_part(path@) ==> seen(r) == Some(path@),
{
    std::path::Path::new(path).file_name().map(|name| name.to_string_lossy().to_string())
}

/// What `String::from_utf8_lossy` makes of bytes.
pub uninterp spec fn lossy_text(bytes: Seq<u8>) -> Seq<char>;

/// Calls `String::from_utf8_lossy`. The result depends on the bytes alone.
#[verifier::external_body]
pub(crate) fn decode_lossy(bytes: &[u8]) -> (r: String)
    ensures
        r@ == lossy_text(bytes@),
{
    String::from_utf8_lossy(bytes).to_string()
}

/// What `String::from_utf16_lossy` makes of UTF-16 units.
pub uninterp spec fn utf16_text(units: Seq<u16>) -> Seq<char>;

/// Calls `String::from_utf16_lossy`. The result depends on the units alone.
#[verifier::external_body]
pub(crate) fn decode_utf16(units: &[u16]) -> (r: String)
    ensures
        r@ == utf16_text(units@),
{
    String::from_utf16_lossy(units)
}

/// Calls `String::from_utf8`: bytes that are UTF-8 become the text that they encode, and no
/// others become a text.
#[verifier::external_body]
pub(crate) fn decode_strict(bytes: &[u8]) -> (r: Option<String>)
    ensures
        r is Some <==> valid_utf8(bytes@),
        r matches Some(text) ==> text@ == decode_utf8(bytes@),
{
    String::from_utf8(bytes.to_vec()).ok()
}

/// What `chrono::DateTime::format` writes for an instant in a format.
pub uninterp spec fn formatted(t: Moment, format: Seq<char>) -> Seq<char>;

/// The formats in which instants are written: a part of a file name, and the time of a reset.
pub open spec fn is_format(format: Seq<char>) -> bool {
    format == SLUG_FORMAT@ || format == RESET_FORMAT@
}

/// An instant as part of a file name.
pub const SLUG_FORMAT: &'static str = "%Y%m%d-%H%M%S";

/// An instant as the time of a reset.
pub const RESET_FORMAT: &'static str = "%b %-d at %-I:%M%p";

/// An instant without an offset.
pub const NAIVE_FORMAT: &'static str = "%Y-%m-%dT%H:%M:%S%.f";

/// Calls `chrono::DateTime::from_timestamp` and, on its result, `format`. The text depends on
/// the instant and the format alone. There is one for every instant that chrono can hold, and
/// for no other.
#[verifier::external_body]
pub(crate) fn write_formatted(t: Moment, format: &str) -> (r: Option<String>)
    requires
        is_format(format@),
    ensures
        r is Some <==> is_instant(t),
        r matches Some(text) ==> text@ == formatted(t, format@),
{
    chrono::DateTime::from_timestamp(t.secs, t.nanos).map(|d| d.format(format).to_string())
}

/// What `str::to_uppercase` returns.
pub uninterp spec fn uppercase(s: Seq<char>) -> Seq<char>;

/// Calls `str::to_uppercase`. The result depends on the text alone.
#[verifier::external_body]
pub(crate) fn to_uppercase(s: &str) -> (r: String)
    ensures
        r@ == uppercase(s@),
{
    s.to_uppercase()
}

/// What `chrono::DateTime::parse_from_rfc2822` reads from a text.
pub uninterp spec fn rfc2822_moment(text: Seq<char>) -> Option<Moment>;

/// Calls `chrono::DateTime::parse_from_rfc2822` and takes the instant in UTC. The result
/// depends on the text alone.
#[verifier::external_body]
pub(crate) fn parse_rfc2822(text: &str) -> (r: Option<Moment>)
    ensures
        r == rfc2822_moment(text@),
{
    match chrono::DateTime::parse_from_rfc2822(text) {
        Ok(t) => Some(Moment { secs: t.timestamp(), nanos: t.timestamp_subsec_nanos() }),
        Err(_) => None,
    }
}

/// What `chrono::NaiveDateTime::parse_from_str` reads from a text in a format, taken as UTC.
pub uninterp spec fn naive_moment(text: Seq<char>, format: Seq<char>) -> Option<Moment>;

/// Calls `chrono::NaiveDateTime::parse_from_str` and takes the result as UTC. The result
/// depends on the text and the format alone, and is an instant that chrono can hold.
#[verifier::external_body]
pub(crate) fn parse_naive(text: &str, format: &str) -> (r: Option<Moment>)
    ensures
        r == naive_moment(text@, format@),
        r matches Some(t) ==> is_instant(t),
{
    match chrono::NaiveDateTime::parse_from_str(text, format) {
        Ok(t) => Some(
            Moment { secs: t.and_utc().timestamp(), nanos: t.and_utc().timestamp_subsec_nanos() },
        ),
        Err(_) => None,
    }
}

} // verus!
