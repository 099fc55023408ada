//! JSON string literals, written and read by `serde_json`.
//!
//! How a string's characters are escaped inside a literal, and which byte
//! sequences read back as a string, is `serde_json`'s business. Both
//! directions get a name here, and each call goes through one function whose
//! contract is taken on trust.

use vstd::prelude::*;

verus! {

#[verifier::external_type_specification]
#[verifier::external_body]
pub struct ExJsonError(serde_json::Error);

/// The JSON text that `serde_json` writes for a string: the literal, quotes
/// and escapes included, as UTF-8 bytes.
pub uninterp spec fn json_text(s: Seq<char>) -> Seq<u8>;

/// The string that `serde_json` reads from a JSON text, where the text is one
/// string literal with nothing but white space around it; `None` for any
/// other text.
pub uninterp spec fn json_string(text: Seq<u8>) -> Option<Seq<char>>;

/// `serde_json::to_vec` on a string.
///
/// Trusted: the bytes are the text that `serde_json` writes for `s`, and
/// `serde_json` reads that text back as `s`. `to_vec` fails only when a
/// `Serialize` impl fails or a map has a key that is no string; a `str` is
/// neither, so its result is unwrapped.
#[verifier::external_body]
pub(crate) fn write_json_string(s: &str) -> (text: Vec<u8>)
    ensures
        text@ == json_text(s@),
        json_string(text@) == Some(s@),
{
    serde_json::to_vec(s).unwrap()
}

/// `serde_json::from_slice::<String>`.
///
/// Trusted: the call depends on the bytes alone; it returns the string that
/// the text stands for, or an error where the text is not one string literal.
#[verifier::external_body]
pub(crate) fn read_json_string(text: &[u8]) -> (r: Result<String, serde_json::Error>)
    ensures
        match r {
            Ok(s) => json_string(text@) == Some(s@),
            Err(_) => json_string(text@) is None,
        },
{
    serde_json::from_slice::<String>(text)
}

} // verus!
