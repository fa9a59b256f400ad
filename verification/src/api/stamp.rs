//! Record identifiers and timestamps: random bytes from `getrandom`, UUID text
//! from `uuid`, the clock from `std::time`, RFC 3339 text from `chrono`.

use vstd::prelude::*;

use std::time::{Duration, SystemTime};

verus! {

/// `std::time::SystemTime`, an instant of the system clock.
#[verifier::external_type_specification]
#[verifier::external_body]
pub struct ExSystemTime(SystemTime);

/// The lower-case hexadecimal digits, by value.
pub open spec fn hex_digits() -> Seq<char> {
    seq!['0', '1', '2', '3', '4', '5', '6', '7', '8', '9', 'a', 'b', 'c', 'd', 'e', 'f']
}

/// A lower-case hexadecimal digit.
pub open spec fn is_lower_hex(c: char) -> bool {
    ('0' <= c && c <= '9') || ('a' <= c && c <= 'f')
}

/// Hyphenated lower-case text of a version-4 UUID: 8-4-4-4-12 hex digits,
/// version digit `4`, variant digit one of `8`, `9`, `a`, `b`.
pub open spec fn is_uuid_v4_text(s: Seq<char>) -> bool {
    &&& s.len() == 36
    &&& forall|i: int|
        0 <= i < 36 ==> if i == 8 || i == 13 || i == 18 || i == 23 {
            s[i] == '-'
        } else {
            is_lower_hex(#[trigger] s[i])
        }
    &&& s[14] == '4'
    &&& (s[19] == '8' || s[19] == '9' || s[19] == 'a' || s[19] == 'b')
}

/// Byte `k` of a random (version 4, RFC 4122 variant) UUID built from `b`:
/// the high nibble of byte 6 becomes 4, the top two bits of byte 8 become `10`.
pub open spec fn uuid_v4_byte(b: Seq<u8>, k: int) -> u8 {
    if k == 6 {
        (b[6] & 0x0f) | 0x40
    } else if k == 8 {
        (b[8] & 0x3f) | 0x80
    } else {
        b[k]
    }
}

/// Nibble `j` (0 to 31, high nibble first) of that UUID.
pub open spec fn uuid_v4_nibble(b: Seq<u8>, j: int) -> u8 {
    let x = uuid_v4_byte(b, j / 2);
    if j % 2 == 0 {
        x >> 4
    } else {
        x & 0x0f
    }
}

/// How many hyphens stand before position `i` of hyphenated UUID text.
pub open spec fn hyphens_before(i: int) -> int {
    if i > 23 {
        4
    } else if i > 18 {
        3
    } else if i > 13 {
        2
    } else if i > 8 {
        1
    } else {
        0
    }
}

/// The hyphenated lower-case text of the random UUID built from the bytes `b`.
pub open spec fn uuid_v4_text_of(b: Seq<u8>) -> Seq<char> {
    Seq::new(
        36,
        |i: int|
            if i == 8 || i == 13 || i == 18 || i == 23 {
                '-'
            } else {
                hex_digits()[uuid_v4_nibble(b, i - hyphens_before(i)) as int]
            },
    )
}

/// The text of the UUID built from any 16 bytes has the version-4 shape.
pub proof fn lemma_uuid_text_is_v4(b: Seq<u8>)
    requires
        b.len() == 16,
    ensures
        is_uuid_v4_text(uuid_v4_text_of(b)),
{
    let s = uuid_v4_text_of(b);
    assert forall|n: int| 0 <= n < 16 implies is_lower_hex(#[trigger] hex_digits()[n]) by {
        assert(hex_digits()[0] == '0' && hex_digits()[1] == '1' && hex_digits()[2] == '2');
        assert(hex_digits()[3] == '3' && hex_digits()[4] == '4' && hex_digits()[5] == '5');
        assert(hex_digits()[6] == '6' && hex_digits()[7] == '7' && hex_digits()[8] == '8');
        assert(hex_digits()[9] == '9' && hex_digits()[10] == 'a' && hex_digits()[11] == 'b');
        assert(hex_digits()[12] == 'c' && hex_digits()[13] == 'd' && hex_digits()[14] == 'e');
        assert(hex_digits()[15] == 'f');
    }
    assert(forall|x: u8| #[trigger] (x >> 4) < 16 && (x & 0x0f) < 16) by (bit_vector);
    assert forall|i: int|
        0 <= i < 36 && !(i == 8 || i == 13 || i == 18 || i == 23) implies is_lower_hex(#[trigger] s[i]) by {
        let n = uuid_v4_nibble(b, i - hyphens_before(i));
        let x = uuid_v4_byte(b, (i - hyphens_before(i)) / 2);
        assert((x >> 4) < 16 && (x & 0x0f) < 16);
        assert(n < 16);
    }
    let b6 = b[6];
    let b8 = b[8];
    assert((((b6 & 0x0f) | 0x40) >> 4) == 4) by (bit_vector);
    assert(8 <= (((b8 & 0x3f) | 0x80) >> 4) <= 11) by (bit_vector);
    assert(s[14] == hex_digits()[4]);
    let v = ((b8 & 0x3f) | 0x80) >> 4;
    assert(s[19] == hex_digits()[v as int]);
    assert(hex_digits()[8] == '8' && hex_digits()[9] == '9' && hex_digits()[10] == 'a' && hex_digits()[11] == 'b');
}

/// An ASCII decimal digit.
pub open spec fn is_digit(c: char) -> bool {
    '0' <= c && c <= '9'
}

/// RFC 3339 text of an instant in UTC as `chrono` writes it. When it starts
/// with a digit (years 0 to 9999): `YYYY-MM-DDTHH:MM:SS`, then nothing, or a
/// `.` and 3, 6 or 9 digits, then `+00:00`. Otherwise the year is written
/// with its sign, here `+`. It always ends with the offset `+00:00`.
pub open spec fn is_utc_rfc3339(s: Seq<char>) -> bool {
    &&& s.len() >= 25
    &&& "+00:00"@.is_suffix_of(s)
    &&& if is_digit(s[0]) {
        &&& forall|i: int|
            0 <= i < 19 && i != 4 && i != 7 && i != 10 && i != 13 && i != 16 ==> is_digit(#[trigger] s[i])
        &&& s[4] == '-' && s[7] == '-' && s[10] == 'T' && s[13] == ':' && s[16] == ':'
        &&& (s.len() == 25 || s.len() == 29 || s.len() == 32 || s.len() == 35)
        &&& s.len() > 25 ==> s[19] == '.' && forall|i: int| 20 <= i < s.len() - 6 ==> is_digit(#[trigger] s[i])
    } else {
        s[0] == '+'
    }
}

/// The text `chrono` writes for the UTC instant `secs` seconds and `nanos`
/// nanoseconds after 1970-01-01T00:00:00.
pub uninterp spec fn rfc3339_text(secs: i64, nanos: u32) -> Seq<char>;

/// Sixteen bytes from `getrandom::fill`.
/// Trusted: `None` when the operating system's source gives no bytes (the
/// error is dropped); which bytes come back is chance and is not stated.
#[verifier::external_body]
fn random_bytes() -> (r: Option<[u8; 16]>) {
    let mut bytes = [0u8; 16];
    match getrandom::fill(&mut bytes) {
        Ok(()) => Some(bytes),
        Err(_) => None,
    }
}

/// `uuid::Builder::from_random_bytes(bytes).into_uuid()` rendered by the
/// UUID's `Display` impl.
/// Trusted: the builder sets the version nibble of byte 6 to 4 and the top
/// bits of byte 8 to `10` and keeps the other bytes; `Display` writes the 16
/// bytes as 32 lower-case hex digits in 8-4-4-4-12 groups.
#[verifier::external_body]
fn uuid_v4_text(bytes: [u8; 16]) -> (r: String)
    ensures
        r@ == uuid_v4_text_of(bytes@),
{
    uuid::Builder::from_random_bytes(bytes).into_uuid().to_string()
}

/// `std::time::SystemTime::now`. Trusted with no claim: the clock's reading.
#[verifier::external_body]
fn system_now() -> (r: SystemTime) {
    SystemTime::now()
}

/// `SystemTime::duration_since(UNIX_EPOCH)`, its error dropped.
/// Trusted with no claim: `None` for an instant before 1970.
#[verifier::external_body]
fn since_unix_epoch(t: &SystemTime) -> (r: Option<Duration>) {
    t.duration_since(std::time::UNIX_EPOCH).ok()
}

/// `Duration::as_secs`. Trusted with no claim: the whole seconds of an opaque value.
#[verifier::external_body]
fn whole_seconds(d: &Duration) -> (r: u64) {
    d.as_secs()
}

/// `Duration::subsec_nanos`. Trusted: the documentation says the result is
/// always less than one billion.
#[verifier::external_body]
fn subsec_nanos(d: &Duration) -> (r: u32)
    ensures
        r < 1_000_000_000,
{
    d.subsec_nanos()
}

/// `chrono::DateTime::from_timestamp(secs, nanos)` rendered by
/// `DateTime::to_rfc3339`.
/// Trusted: the text is `rfc3339_text(secs, nanos)`; for a time from 1970 to
/// the end of year 9999 with `nanos` under a billion there is one, and every
/// text for a time from 1970 on has the shape `is_utc_rfc3339`, with no
/// fraction exactly when `nanos` is zero. `from_timestamp` gives `None`
/// beyond the dates it can represent; those bounds are not stated.
#[verifier::external_body]
fn rfc3339_from_unix(secs: i64, nanos: u32) -> (r: Option<String>)
    ensures
        0 <= secs < 253_402_300_800 && nanos < 1_000_000_000 ==> r is Some,
        r matches Some(s) ==> s@ == rfc3339_text(secs, nanos),
        r matches Some(s) ==> (secs >= 0 ==> is_utc_rfc3339(s@)),
        r matches Some(s) ==> (0 <= secs < 253_402_300_800 && nanos < 1_000_000_000 ==> is_digit(s@[0])
            && (s@.len() == 25 <==> nanos == 0)),
{
    match chrono::DateTime::from_timestamp(secs, nanos) {
        Some(t) => Some(t.to_rfc3339()),
        None => None,
    }
}

/// The id text of the random UUID built from `bytes`.
pub fn uuid_text_from_bytes(bytes: [u8; 16]) -> (r: String)
    ensures
        r@ == uuid_v4_text_of(bytes@),
        is_uuid_v4_text(r@),
{
    proof {
        lemma_uuid_text_is_v4(bytes@);
    }
    uuid_v4_text(bytes)
}

/// A fresh record id: the text of a random UUID, or `None` when no random
/// bytes could be had.
pub fn new_record_id() -> (r: Option<String>)
    ensures
        r matches Some(s) ==> is_uuid_v4_text(s@),
{
    match random_bytes() {
        Some(bytes) => Some(uuid_text_from_bytes(bytes)),
        None => None,
    }
}

/// The RFC 3339 text in UTC of the clock reading `secs` seconds and `nanos`
/// nanoseconds after 1970: `None` for seconds beyond `i64`, else `chrono`'s
/// text for it, which exists at least up to the end of year 9999.
pub fn rfc3339_utc(secs: u64, nanos: u32) -> (r: Option<String>)
    ensures
        secs > i64::MAX ==> r is None,
        r matches Some(s) ==> s@ == rfc3339_text(secs as i64, nanos) && is_utc_rfc3339(s@),
        secs < 253_402_300_800 && nanos < 1_000_000_000 ==> r is Some,
        r matches Some(s) ==> (secs < 253_402_300_800 && nanos < 1_000_000_000 ==> is_digit(s@[0])
            && (s@.len() == 25 <==> nanos == 0)),
{
    if secs > 9_223_372_036_854_775_807u64 {
        None
    } else {
        rfc3339_from_unix(secs as i64, nanos)
    }
}

/// The current time as RFC 3339 text in UTC, or `None` when the clock reads
/// before 1970 or beyond what `chrono` represents.
pub fn utc_timestamp() -> (r: Option<String>)
    ensures
        r matches Some(s) ==> is_utc_rfc3339(s@),
{
    let now = system_now();
    match since_unix_epoch(&now) {
        Some(d) => {
            let secs = whole_seconds(&d);
            let nanos = subsec_nanos(&d);
            rfc3339_utc(secs, nanos)
        },
        None => None,
    }
}

} // verus!
