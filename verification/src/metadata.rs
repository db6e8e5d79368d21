//! Reading custom model metadata: string values, integers and comma-separated
//! lists, with the messages given when a value cannot be read or parsed.
use vstd::prelude::*;
use ort::session::Session;
use crate::error::TranscribeError;
use crate::ortcalls;
use crate::plugin::starts_with;
use crate::text::{split_on, split_trimmed, string_views, trim};

verus! {

/// An ASCII decimal digit.
pub open spec fn is_digit(c: char) -> bool {
    48 <= (c as u32) && (c as u32) <= 57
}

/// The value of a string of decimal digits.
pub open spec fn digits_value(s: Seq<char>) -> int
    decreases s.len(),
{
    if s.len() == 0 {
        0
    } else {
        digits_value(s.drop_last()) * 10 + ((s.last() as u32) - 48)
    }
}

/// The sign and digits of a decimal: an optional leading `+` or `-`, then the rest.
pub open spec fn sign_split(s: Seq<char>) -> (bool, Seq<char>) {
    if s.len() > 0 && s[0] == '-' {
        (true, s.drop_first())
    } else if s.len() > 0 && s[0] == '+' {
        (false, s.drop_first())
    } else {
        (false, s)
    }
}

/// The `i32` that `s` spells as `str::parse::<i32>` reads it: an optional sign
/// followed by one or more ASCII digits, with no other characters, in range.
pub open spec fn spec_parse_i32(s: Seq<char>) -> Option<i32> {
    let (negative, body) = sign_split(s);
    if body.len() == 0 || !(forall|i: int| 0 <= i < body.len() ==> is_digit(body[i])) {
        None
    } else {
        let v = if negative {
            -digits_value(body)
        } else {
            digits_value(body)
        };
        if i32::MIN <= v && v <= i32::MAX {
            Some(v as i32)
        } else {
            None
        }
    }
}

/// `str::parse::<i32>`, with the error's `Display` text. It succeeds exactly
/// on an optional `+` or `-` followed by ASCII digits whose value fits, as the
/// documentation of `i32::from_str_radix` says; the error text is not stated.
#[verifier::external_body]
fn parse_i32(s: &str) -> (r: Result<i32, String>)
    ensures
        r is Ok <==> spec_parse_i32(s@) is Some,
        r matches Ok(n) ==> spec_parse_i32(s@) == Some(n),
{
    match s.parse::<i32>() {
        Ok(n) => Ok(n),
        Err(e) => Err(e.to_string()),
    }
}

/// `failed to read metadata '<key>': `.
pub open spec fn read_failure_prefix(key: Seq<char>) -> Seq<char> {
    "failed to read metadata '"@ + key + "': "@
}

/// `failed to parse '<key>': `.
pub open spec fn parse_failure_prefix(key: Seq<char>) -> Seq<char> {
    "failed to parse '"@ + key + "': "@
}

/// `failed to parse floats in '<key>': `.
pub open spec fn float_failure_prefix(key: Seq<char>) -> Seq<char> {
    "failed to parse floats in '"@ + key + "': "@
}

/// A configuration error whose message starts with `prefix`.
pub open spec fn config_error_with_prefix(e: TranscribeError, prefix: Seq<char>) -> bool {
    match e {
        TranscribeError::Config(m) => starts_with(m@, prefix),
    }
}

/// A stored value counts only when it is not empty.
pub fn non_empty_value(value: Option<String>) -> (r: Option<String>)
    ensures
        match value {
            Some(v) => if v@.len() > 0 {
                r == Some(v)
            } else {
                r is None
            },
            None => r is None,
        },
{
    match value {
        Some(v) => if v.as_str().is_empty() {
            None
        } else {
            Some(v)
        },
        None => None,
    }
}

/// The custom metadata value stored under `key` in the model of `session`;
/// an empty value reads as absent. What is stored is up to the model.
pub fn read_metadata_str(session: &Session, key: &str) -> (r: Result<Option<String>, ort::Error>)
    ensures
        r matches Ok(Some(v)) ==> v@.len() > 0,
{
    let metadata = ortcalls::session_metadata(session)?;
    let value = ortcalls::metadata_custom(&metadata, key);
    Ok(non_empty_value(value))
}

/// The configuration error for a metadata value that could not be read:
/// `failed to read metadata '<key>': <error>`.
pub fn metadata_read_error(key: &str, err: &ort::Error) -> (r: TranscribeError)
    ensures
        config_error_with_prefix(r, read_failure_prefix(key@)),
{
    let text = ortcalls::error_text(err);
    let msg = "failed to read metadata '".to_owned().concat(key).concat("': ").concat(text.as_str());
    assert(msg@.take(read_failure_prefix(key@).len() as int) =~= read_failure_prefix(key@));
    TranscribeError::Config(msg)
}

/// The configuration error for a list entry that is not a float:
/// `failed to parse floats in '<key>': <detail>`.
pub fn float_parse_error(key: &str, detail: &str) -> (r: TranscribeError)
    ensures
        r->Config_0@ == float_failure_prefix(key@) + detail@,
{
    let msg = "failed to parse floats in '".to_owned().concat(key).concat("': ").concat(detail);
    TranscribeError::Config(msg)
}

/// The integer a metadata value spells: `default` when there is no value, the
/// parsed number when it is one, and a configuration error
/// `failed to parse '<key>': <detail>` otherwise.
pub fn metadata_i32_value(key: &str, value: Option<String>, default: Option<i32>) -> (r: Result<
    Option<i32>,
    TranscribeError,
>)
    ensures
        value is None ==> r == Ok::<Option<i32>, TranscribeError>(default),
        value matches Some(v) ==> (spec_parse_i32(v@) matches Some(n) ==> r == Ok::<
            Option<i32>,
            TranscribeError,
        >(Some(n))),
        value matches Some(v) ==> (spec_parse_i32(v@) is None ==> (r matches Err(e)
            && config_error_with_prefix(e, parse_failure_prefix(key@)))),
{
    match value {
        Some(v) => match parse_i32(v.as_str()) {
            Ok(n) => Ok(Some(n)),
            Err(detail) => {
                let msg = "failed to parse '".to_owned().concat(key).concat("': ").concat(
                    detail.as_str(),
                );
                assert(msg@.take(parse_failure_prefix(key@).len() as int) =~= parse_failure_prefix(
                    key@,
                ));
                Err(TranscribeError::Config(msg))
            },
        },
        None => Ok(default),
    }
}

/// The custom metadata value under `key` read as an `i32`: `default` when
/// absent, else the parsed value; a value that cannot be read or parsed is a
/// configuration error naming `key`.
pub fn read_metadata_i32(session: &Session, key: &str, default: Option<i32>) -> (r: Result<
    Option<i32>,
    TranscribeError,
>)
    ensures
        r matches Err(e) ==> config_error_with_prefix(e, read_failure_prefix(key@))
            || config_error_with_prefix(e, parse_failure_prefix(key@)),
        r matches Ok(v) ==> v == default || v is Some,
{
    let value = match read_metadata_str(session, key) {
        Ok(v) => v,
        Err(e) => return Err(metadata_read_error(key, &e)),
    };
    metadata_i32_value(key, value, default)
}

/// The entries of a comma-separated metadata list, each trimmed; the floats
/// themselves are read by the caller.
pub fn metadata_list_fields(value: &str) -> (r: Vec<String>)
    ensures
        string_views(r@) == split_on(value@, ',').map_values(|p: Seq<char>| trim(p)),
{
    split_trimmed(value, ',')
}

} // verus!
