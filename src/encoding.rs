//! Textual forms of an event's identity and time, as audit records carry them.

use vstd::prelude::*;

use bech32::{ToBase32, Variant};

verus! {

/// The lower-case hexadecimal digit for a value below sixteen.
pub open spec fn hex_digit(n: int) -> char {
    if n < 10 {
        (48 + n) as char
    } else {
        (87 + n) as char
    }
}

/// Two lower-case hexadecimal digits for each byte, high half first.
pub open spec fn hex_text(bytes: Seq<u8>) -> Seq<char>
    decreases bytes.len(),
{
    if bytes.len() == 0 {
        Seq::empty()
    } else {
        hex_text(bytes.drop_last()) + seq![
            hex_digit(bytes.last() as int / 16),
            hex_digit(bytes.last() as int % 16),
        ]
    }
}

/// Relies on hex::encode: each byte becomes two lower-case hexadecimal
/// digits, high half first, in the order of the bytes.
#[verifier::external_body]
pub(crate) fn hex_encode(bytes: &Vec<u8>) -> (r: String)
    ensures
        r@ == hex_text(bytes@),
{
    hex::encode(bytes)
}

/// The bech32 address with human-readable part `npub` of a public key, when
/// it can be formed.
pub uninterp spec fn npub_encoding(bytes: Seq<u8>) -> Option<Seq<char>>;

/// Relies on bech32::encode (after ToBase32::to_base32 regroups the bytes into
/// five-bit values): the checksummed address of the bytes under `npub`.
#[verifier::external_body]
pub(crate) fn encode_npub(bytes: &Vec<u8>) -> (r: Option<String>)
    ensures
        match r {
            Some(s) => npub_encoding(bytes@) == Some(s@),
            None => npub_encoding(bytes@) is None,
        },
{
    bech32::encode("npub", bytes.to_base32(), Variant::Bech32).ok()
}

/// The UTC date and time that lies `millis` milliseconds after the Unix
/// epoch, formatted with `%Y-%m-%d %H:%M:%S`, when it is in the representable
/// range.
pub uninterp spec fn datetime_text(millis: int) -> Option<Seq<char>>;

/// Relies on chrono::DateTime::from_timestamp_millis: the UTC date and time
/// `millis` milliseconds after the epoch, or `None` out of range; formatted
/// as `%Y-%m-%d %H:%M:%S`.
#[verifier::external_body]
pub(crate) fn format_millis(millis: i64) -> (r: Option<String>)
    ensures
        match r {
            Some(s) => datetime_text(millis as int) == Some(s@),
            None => datetime_text(millis as int) is None,
        },
{
    match chrono::DateTime::from_timestamp_millis(millis) {
        Some(d) => Some(d.format("%Y-%m-%d %H:%M:%S").to_string()),
        None => None,
    }
}

/// Relies on chrono's `From<SystemTime> for DateTime<Utc>`, applied to std's
/// `SystemTime::now` (a clock set before the epoch gives a date before it),
/// formatted as `%Y-%m-%d %H:%M:%S`. Nothing is known of its value.
#[verifier::external_body]
pub(crate) fn format_now() -> (r: String) {
    chrono::DateTime::<chrono::Utc>::from(std::time::SystemTime::now()).format("%Y-%m-%d %H:%M:%S").to_string()
}

} // verus!
