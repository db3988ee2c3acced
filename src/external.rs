//! Declarations of the outside items that the library calls, each with the
//! contract that the rest of the crate relies on.

use vstd::prelude::*;

verus! {

/// A JSON document, carried through the library as an opaque value.
#[verifier::external_type_specification]
#[verifier::external_body]
pub struct ExValue(serde_json::Value);

/// Relies on `Clone for serde_json::Value`: the derived clone copies the
/// whole tree, so the copy is the same value.
pub assume_specification[ <serde_json::Value as Clone>::clone ](v: &serde_json::Value) -> (r:
    serde_json::Value)
    ensures
        r == *v,
;

/// Relies on `uuid::Uuid::new_v4`, read as its 128-bit integer: a random id,
/// of which nothing more is promised.
#[verifier::external_body]
pub fn fresh_uuid() -> (r: u128) {
    uuid::Uuid::new_v4().as_u128()
}

/// Relies on `chrono::Utc::now`, read as milliseconds since the Unix epoch:
/// the clock's current reading, of which nothing more is promised.
#[verifier::external_body]
pub fn now_millis() -> (r: i64) {
    chrono::Utc::now().timestamp_millis()
}

/// What `serde_json::Value::get` finds under `key` in `v`.
pub uninterp spec fn json_field(v: serde_json::Value, key: Seq<char>) -> Option<serde_json::Value>;

/// Relies on `serde_json::Value::get` with a string index: the member under
/// `key` of an object, `None` for a missing key or a value that is no object.
#[verifier::external_body]
pub fn json_get<'a>(v: &'a serde_json::Value, key: &str) -> (r: Option<&'a serde_json::Value>)
    ensures
        match r {
            Some(x) => json_field(*v, key@) == Some(*x),
            None => json_field(*v, key@) is None,
        },
{
    v.get(key)
}

/// What `From<()> for serde_json::Value` makes of the unit value: JSON null.
pub uninterp spec fn json_from_unit(unit: ()) -> serde_json::Value;

/// Relies on `From<()> for serde_json::Value`, which gives `Value::Null`.
#[verifier::external_body]
pub fn json_null() -> (r: serde_json::Value)
    ensures
        r == json_from_unit(()),
{
    serde_json::Value::from(())
}

/// What `serde_json::Value::as_str` reads from `v`.
pub uninterp spec fn json_text(v: serde_json::Value) -> Option<Seq<char>>;

/// Relies on `serde_json::Value::as_str`: the text of a JSON string, `None`
/// for any other kind of value.
#[verifier::external_body]
pub fn json_as_str(v: &serde_json::Value) -> (r: Option<String>)
    ensures
        match r {
            Some(s) => json_text(*v) == Some(s@),
            None => json_text(*v) is None,
        },
{
    v.as_str().map(|s| s.to_string())
}

/// The JSON object that `serde_json::Map`'s `FromIterator` builds from these
/// members.
pub uninterp spec fn json_object_of(members: Seq<(Seq<char>, serde_json::Value)>) -> serde_json::Value;

/// Relies on `FromIterator<(String, Value)> for serde_json::Map`, wrapped as
/// `Value::Object`: the object holding the given members.
#[verifier::external_body]
pub fn json_object(members: Vec<(String, serde_json::Value)>) -> (r: serde_json::Value)
    ensures
        r == json_object_of(members@.map_values(|m: (String, serde_json::Value)| (m.0@, m.1))),
{
    serde_json::Value::Object(members.into_iter().collect())
}

/// The JSON number that `serde_json::Value::from` makes of `n`.
pub uninterp spec fn json_number(n: u32) -> serde_json::Value;

/// Relies on `From<u32> for serde_json::Value`: the number `n`.
#[verifier::external_body]
pub fn json_u32(n: u32) -> (r: serde_json::Value)
    ensures
        r == json_number(n),
{
    serde_json::Value::from(n)
}

/// The JSON string that `serde_json::Value::from` makes of `s`.
pub uninterp spec fn json_string(s: Seq<char>) -> serde_json::Value;

/// Relies on `From<&str> for serde_json::Value`: the JSON string holding `s`.
#[verifier::external_body]
pub fn json_str(s: &str) -> (r: serde_json::Value)
    ensures
        r == json_string(s@),
{
    serde_json::Value::from(s)
}

/// The JSON boolean that `serde_json::Value::from` makes of `b`.
pub uninterp spec fn json_boolean(b: bool) -> serde_json::Value;

/// Relies on `From<bool> for serde_json::Value`: the boolean `b`.
#[verifier::external_body]
pub fn json_bool(b: bool) -> (r: serde_json::Value)
    ensures
        r == json_boolean(b),
{
    serde_json::Value::from(b)
}

/// The bytes that the standard base64 alphabet, with padding, decodes `s`
/// into; `None` where `s` is not valid base64.
pub uninterp spec fn base64_decoded(s: Seq<char>) -> Option<Seq<u8>>;

/// Relies on `base64::engine::general_purpose::STANDARD.decode`: the decoded
/// bytes, or `None` where decoding fails.
#[verifier::external_body]
pub fn base64_decode(s: &str) -> (r: Option<Vec<u8>>)
    ensures
        match r {
            Some(b) => base64_decoded(s@) == Some(b@),
            None => base64_decoded(s@) is None,
        },
{
    base64::Engine::decode(&base64::engine::general_purpose::STANDARD, s).ok()
}

/// Width and height of the image in `bytes`, as the built-in format of its
/// magic bytes decodes it; `None` where no built-in format matches or the
/// data is broken.
pub uninterp spec fn image_size(bytes: Seq<u8>) -> Option<(u32, u32)>;

/// Relies on `image::guess_format`, which matches only the built-in magic
/// bytes, and `image::load_from_memory_with_format`, which decodes with that
/// built-in format and so reads no registered hook: the size of the image,
/// or `None` where either step fails.
#[verifier::external_body]
pub fn image_dimensions(bytes: &Vec<u8>) -> (r: Option<(u32, u32)>)
    ensures
        r == image_size(bytes@),
{
    match image::guess_format(bytes.as_slice()) {
        Ok(format) => image::load_from_memory_with_format(bytes.as_slice(), format).ok().map(
            |img| (img.width(), img.height()),
        ),
        Err(_) => None,
    }
}

/// The character of one decimal digit.
pub open spec fn digit_char(d: nat) -> char {
    if d == 0 {
        '0'
    } else if d == 1 {
        '1'
    } else if d == 2 {
        '2'
    } else if d == 3 {
        '3'
    } else if d == 4 {
        '4'
    } else if d == 5 {
        '5'
    } else if d == 6 {
        '6'
    } else if d == 7 {
        '7'
    } else if d == 8 {
        '8'
    } else {
        '9'
    }
}

/// The decimal digits of `n`, most significant first, with no sign or padding.
pub open spec fn decimal(n: nat) -> Seq<char>
    decreases n,
{
    if n < 10 {
        seq![digit_char(n)]
    } else {
        decimal(n / 10) + seq![digit_char(n % 10)]
    }
}

/// Relies on `ToString` through `Display for u32`: the decimal digits of `n`.
#[verifier::external_body]
pub fn u32_text(n: u32) -> (r: String)
    ensures
        r@ == decimal(n as nat),
{
    n.to_string()
}

/// The value of a run of ASCII decimal digits.
pub open spec fn digits_value(s: Seq<char>) -> nat
    decreases s.len(),
{
    if s.len() == 0 {
        0
    } else {
        digits_value(s.drop_last()) * 10 + ((s.last() as u32) - ('0' as u32)) as nat
    }
}

/// What `str::parse::<u64>` reads from `s`: an optional `+` followed by one
/// or more ASCII digits whose value fits in a `u64`.
pub open spec fn u64_parsed(s: Seq<char>) -> Option<u64> {
    let body = if s.len() > 0 && s[0] == '+' {
        s.drop_first()
    } else {
        s
    };
    if body.len() > 0 && (forall|i: int| 0 <= i < body.len() ==> '0' <= #[trigger] body[i] <= '9')
        && digits_value(body) <= u64::MAX {
        Some(digits_value(body) as u64)
    } else {
        None
    }
}

/// Relies on `str::parse::<u64>`: the number that `s` spells, or `None`
/// where `s` is no decimal number in the range of `u64`.
#[verifier::external_body]
pub fn parse_u64(s: &str) -> (r: Option<u64>)
    ensures
        r == u64_parsed(s@),
{
    s.parse::<u64>().ok()
}

/// The character of one hexadecimal digit, in lower case.
pub open spec fn hex_char(d: nat) -> char {
    if d < 10 {
        digit_char(d)
    } else if d == 10 {
        'a'
    } else if d == 11 {
        'b'
    } else if d == 12 {
        'c'
    } else if d == 13 {
        'd'
    } else if d == 14 {
        'e'
    } else {
        'f'
    }
}

/// The last `count` hexadecimal digits of `n`, most significant first,
/// padded with zeros.
pub open spec fn hex_digits(n: nat, count: nat) -> Seq<char>
    decreases count,
{
    if count == 0 {
        Seq::empty()
    } else {
        hex_digits(n / 16, (count - 1) as nat) + seq![hex_char(n % 16)]
    }
}

/// The hyphenated lower-case text of the UUID whose 128 bits are `id`: 32
/// hexadecimal digits grouped 8-4-4-4-12.
pub open spec fn uuid_hyphenated(id: u128) -> Seq<char> {
    let h = hex_digits(id as nat, 32);
    h.subrange(0, 8) + "-"@ + h.subrange(8, 12) + "-"@ + h.subrange(12, 16) + "-"@ + h.subrange(
        16,
        20,
    ) + "-"@ + h.subrange(20, 32)
}

/// Relies on `uuid::Uuid::from_u128` and the `Display` of `Uuid`: the
/// hyphenated form of the id.
#[verifier::external_body]
pub fn uuid_text(id: u128) -> (r: String)
    ensures
        r@ == uuid_hyphenated(id),
{
    uuid::Uuid::from_u128(id).to_string()
}

} // verus!
