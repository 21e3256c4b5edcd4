//! The calls that the library makes into other crates. What is stated of
//! them here is believed, not proved.

use base64::Engine;
use bip39::rand::Rng;
use chrono::offset::LocalResult;
use chrono::TimeZone;
use crate::views::text_option_view;
use itertools::Itertools;
use vstd::prelude::*;
use vstd::string::StringSliceAdditionalSpecFns;

verus! {

/// The lower-case hexadecimal digit of a number below sixteen.
pub open spec fn hex_digit(nibble: u8) -> char {
    if nibble == 0 {
        '0'
    } else if nibble == 1 {
        '1'
    } else if nibble == 2 {
        '2'
    } else if nibble == 3 {
        '3'
    } else if nibble == 4 {
        '4'
    } else if nibble == 5 {
        '5'
    } else if nibble == 6 {
        '6'
    } else if nibble == 7 {
        '7'
    } else if nibble == 8 {
        '8'
    } else if nibble == 9 {
        '9'
    } else if nibble == 10 {
        'a'
    } else if nibble == 11 {
        'b'
    } else if nibble == 12 {
        'c'
    } else if nibble == 13 {
        'd'
    } else if nibble == 14 {
        'e'
    } else {
        'f'
    }
}

/// The lower-case hexadecimal text of a byte string: two digits for each
/// byte, the high half first.
pub open spec fn spec_hex_encode(bytes: Seq<u8>) -> Seq<char> {
    Seq::new(
        2 * bytes.len(),
        |i: int|
            if i % 2 == 0 {
                hex_digit(bytes[i / 2] >> 4)
            } else {
                hex_digit(bytes[i / 2] & 0x0f)
            },
    )
}

/// Calls `hex::encode`. It is believed to return, for each byte of the
/// input in order, the two lower-case hexadecimal digits of the byte, the
/// high half first.
#[verifier::external_body]
pub(crate) fn hex_encode(bytes: &[u8]) -> (text: String)
    ensures
        text@ == spec_hex_encode(bytes@),
{
    hex::encode(bytes)
}

/// Calls `thread_rng` and `Rng::fill` of the `rand` crate that `bip39`
/// hands on. Nothing is stated of the 32 bytes that come back: they are
/// random. The generator ends the program where the system gives it no
/// randomness to begin with.
#[verifier::external_body]
pub(crate) fn random_bytes32() -> (bytes: [u8; 32]) {
    let mut bytes = [0u8; 32];
    bip39::rand::thread_rng().fill(&mut bytes);
    bytes
}

/// The number that a hexadecimal digit stands for, in either case.
pub open spec fn hex_value(digit: u8) -> Option<u8> {
    if 0x30 <= digit <= 0x39 {
        Some((digit - 0x30) as u8)
    } else if 0x61 <= digit <= 0x66 {
        Some((digit - 0x61 + 10) as u8)
    } else if 0x41 <= digit <= 0x46 {
        Some((digit - 0x41 + 10) as u8)
    } else {
        None
    }
}

/// A text is hexadecimal: it has an even number of bytes, and each is a
/// hexadecimal digit.
pub open spec fn is_hex_text(text: Seq<u8>) -> bool {
    text.len() % 2 == 0 && forall|i: int| 0 <= i < text.len() ==> hex_value(#[trigger] text[i]) is Some
}

/// The bytes that a hexadecimal text stands for: one for each two digits,
/// the high half first.
pub open spec fn spec_hex_decode(text: Seq<u8>) -> Seq<u8> {
    Seq::new(
        text.len() / 2,
        |i: int| (hex_value(text[2 * i])->0 << 4) | hex_value(text[2 * i + 1])->0,
    )
}

/// Calls `hex::decode`. It is believed to succeed exactly on a text with an
/// even number of bytes that are all hexadecimal digits, of either case,
/// and to return then one byte for each two digits, the high half first.
#[verifier::external_body]
pub(crate) fn hex_decode(text: &str) -> (bytes: Option<Vec<u8>>)
    ensures
        bytes is Some <==> is_hex_text(text.spec_bytes()),
        bytes matches Some(decoded) ==> decoded@ == spec_hex_decode(text.spec_bytes()),
{
    hex::decode(text).ok()
}

/// The character that stands for a number below 64 in the standard base64
/// alphabet.
pub open spec fn base64_char(index: u8) -> char {
    if index < 26 {
        (0x41 + index) as char
    } else if index < 52 {
        (0x61 + (index - 26)) as char
    } else if index < 62 {
        (0x30 + (index - 52)) as char
    } else if index == 62 {
        '+'
    } else {
        '/'
    }
}

/// The standard base64 text of a byte string, with padding: four characters
/// for each three bytes, and for the one or two bytes that are left at the
/// end two or three characters and `=` up to four.
pub open spec fn spec_base64_encode(bytes: Seq<u8>) -> Seq<char>
    decreases bytes.len(),
{
    if bytes.len() == 0 {
        Seq::empty()
    } else if bytes.len() == 1 {
        seq![base64_char(bytes[0] >> 2), base64_char((bytes[0] & 3) << 4), '=', '=']
    } else if bytes.len() == 2 {
        seq![
            base64_char(bytes[0] >> 2),
            base64_char(((bytes[0] & 3) << 4) | (bytes[1] >> 4)),
            base64_char((bytes[1] & 15) << 2),
            '=',
        ]
    } else {
        seq![
            base64_char(bytes[0] >> 2),
            base64_char(((bytes[0] & 3) << 4) | (bytes[1] >> 4)),
            base64_char(((bytes[1] & 15) << 2) | (bytes[2] >> 6)),
            base64_char(bytes[2] & 63),
        ] + spec_base64_encode(bytes.skip(3))
    }
}

/// The longest byte string that is handed to the base64 encoder: its text
/// is four thirds as long and must fit in the memory of any machine.
pub const BASE64_INPUT_LIMIT: usize = 0x2fff_ffff;

/// Calls `Engine::encode` of the `base64` crate on its engine `STANDARD`.
/// It is believed to return the standard base64 text of the bytes, with
/// padding. The encoder gives up on an input whose text would not fit in
/// the memory of the machine: such an input is not handed to it.
#[verifier::external_body]
pub(crate) fn base64_encode(bytes: &[u8]) -> (text: String)
    requires
        bytes@.len() <= BASE64_INPUT_LIMIT,
    ensures
        text@ == spec_base64_encode(bytes@),
{
    base64::engine::general_purpose::STANDARD.encode(bytes)
}


/// The texts of `items` in order, with `separator` between each two.
pub open spec fn spec_join(items: Seq<Seq<char>>, separator: Seq<char>) -> Seq<char>
    decreases items.len(),
{
    if items.len() == 0 {
        Seq::empty()
    } else if items.len() == 1 {
        items[0]
    } else {
        spec_join(items.drop_last(), separator) + separator + items.last()
    }
}

/// The views of a list of texts.
pub open spec fn text_views(items: Seq<String>) -> Seq<Seq<char>> {
    Seq::new(items.len(), |i: int| items[i]@)
}

/// Calls `Itertools::join` on the texts of a list. It is believed to
/// return the texts in order, with the separator between each two, and
/// the empty text for an empty list.
#[verifier::external_body]
pub(crate) fn join_texts(items: &Vec<String>, separator: &str) -> (joined: String)
    ensures
        joined@ == spec_join(text_views(items@), separator@),
{
    items.iter().join(separator)
}

/// The date and time of day, in the time zone UTC and in the form
/// `2015-05-15 00:00:00`, of the instant that lies `millis` milliseconds
/// after the beginning of 1970; nothing for an instant that the calendar
/// of `chrono` does not reach.
pub uninterp spec fn spec_utc_date_time_text(millis: i64) -> Option<Seq<char>>;

/// Calls `TimeZone::timestamp_millis_opt` on `Utc` and, for an instant
/// that it accepts, `DateTime::format` with the form `%Y-%m-%d %H:%M:%S`.
/// What comes back is believed to depend on the number of milliseconds
/// alone.
#[verifier::external_body]
pub(crate) fn utc_date_time_text(millis: i64) -> (text: Option<String>)
    ensures
        text_option_view(text) == spec_utc_date_time_text(millis),
{
    match chrono::Utc.timestamp_millis_opt(millis) {
        LocalResult::Single(instant) => Some(instant.format("%Y-%m-%d %H:%M:%S").to_string()),
        LocalResult::Ambiguous(_, _) => None,
        LocalResult::None => None,
    }
}

/// Whether the calendar of `chrono` reaches the instant that lies
/// `seconds` seconds after the beginning of 1970.
pub uninterp spec fn spec_utc_seconds_are_valid(seconds: i64) -> bool;

/// Calls `TimeZone::timestamp_opt` on `Utc`, with no nanoseconds, and
/// tells whether it accepts the instant. The answer is believed to depend
/// on the number of seconds alone.
#[verifier::external_body]
pub(crate) fn utc_seconds_are_valid(seconds: i64) -> (valid: bool)
    ensures
        valid == spec_utc_seconds_are_valid(seconds),
{
    match chrono::Utc.timestamp_opt(seconds, 0) {
        LocalResult::Single(_) => true,
        LocalResult::Ambiguous(_, _) => false,
        LocalResult::None => false,
    }
}


/// Calls `join` of the standard library on a list of texts. It is believed
/// to return the texts in order, with the separator between each two.
#[verifier::external_body]
pub(crate) fn join_lines(items: &Vec<String>, separator: &str) -> (joined: String)
    ensures
        joined@ == spec_join(text_views(items@), separator@),
{
    items.join(separator)
}

/// The text of a decimal digit.
pub open spec fn spec_digit_text(digit: nat) -> Seq<char> {
    if digit == 0 {
        "0"@
    } else if digit == 1 {
        "1"@
    } else if digit == 2 {
        "2"@
    } else if digit == 3 {
        "3"@
    } else if digit == 4 {
        "4"@
    } else if digit == 5 {
        "5"@
    } else if digit == 6 {
        "6"@
    } else if digit == 7 {
        "7"@
    } else if digit == 8 {
        "8"@
    } else {
        "9"@
    }
}

/// The decimal text of a number: its digits, the highest first, without
/// leading zeros.
pub open spec fn spec_decimal_text(number: nat) -> Seq<char>
    decreases number,
{
    if number < 10 {
        spec_digit_text(number)
    } else {
        spec_decimal_text(number / 10) + spec_digit_text(number % 10)
    }
}

/// Calls `to_string` of the standard library on a `u64`. It is believed
/// to return the decimal digits of the number, the highest first, without
/// leading zeros.
#[verifier::external_body]
pub(crate) fn decimal_text(number: u64) -> (text: String)
    ensures
        text@ == spec_decimal_text(number as nat),
{
    number.to_string()
}

/// A text as the standard library writes it for inspection: between
/// quotation marks, with the characters escaped that need it.
pub uninterp spec fn spec_quoted_text(text: Seq<char>) -> Seq<char>;

/// Calls `format!` of the standard library with the one form `{:?}` on a
/// text. What comes back is believed to depend on the text alone.
#[verifier::external_body]
pub(crate) fn quoted_text(text: &str) -> (quoted: String)
    ensures
        quoted@ == spec_quoted_text(text@),
{
    format!("{:?}", text)
}

/// The lower-case form of a text.
pub uninterp spec fn spec_lowercase(text: Seq<char>) -> Seq<char>;

/// Calls `str::to_lowercase` of the standard library. What comes back is
/// believed to depend on the text alone.
#[verifier::external_body]
pub(crate) fn to_lowercase(text: &str) -> (lower: String)
    ensures
        lower@ == spec_lowercase(text@),
{
    text.to_lowercase()
}

} // verus!
