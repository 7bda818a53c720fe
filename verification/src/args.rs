//! Turning the raw bytes that a configuration command printed into the list
//! of arguments it stands for: decode the bytes as UTF-8 and split the text
//! on whitespace.

use vstd::prelude::*;
use crate::split::{split_ws, split_whitespace_tokens};

verus! {

/// What decoding a byte sequence as UTF-8 yields: `Some` of the character
/// sequence when the bytes are valid UTF-8, `None` otherwise.
pub uninterp spec fn utf8_decode(bytes: Seq<u8>) -> Option<Seq<char>>;

/// Relies on `String::from_utf8`: it returns `Ok` exactly on valid UTF-8,
/// and then the string holds the decoded characters.
#[verifier::external_body]
fn bytes_to_string(bytes: &Vec<u8>) -> (r: Option<String>)
    ensures
        match r {
            Some(s) => utf8_decode(bytes@) == Some(s@),
            None => utf8_decode(bytes@) is None,
        },
{
    String::from_utf8(bytes.clone()).ok()
}

/// The whitespace-separated tokens of the UTF-8 text in `args`, each as an
/// owned `String`. The bytes must be valid UTF-8: on anything else the
/// command's output is malformed and no argument list exists.
pub fn args_from_output(args: Vec<u8>) -> (r: Vec<String>)
    requires
        utf8_decode(args@) is Some,
    ensures
        r.deep_view() == split_ws(utf8_decode(args@).unwrap()),
{
    match bytes_to_string(&args) {
        Some(s) => split_whitespace_tokens(s.as_str()),
        None => {
            proof {
                assert(false);
            }
            Vec::new()
        },
    }
}

/// The text that a command printed, where its bytes are valid UTF-8, and
/// `None` where they are not.
pub fn decode_output(out: Vec<u8>) -> (r: Option<String>)
    ensures
        match utf8_decode(out@) {
            Some(text) => r matches Some(s) && s@ == text,
            None => r is None,
        },
{
    bytes_to_string(&out)
}

/// The argument list of `args` where the bytes are valid UTF-8, and `None`
/// where they are not.
pub fn try_args_from_output(args: Vec<u8>) -> (r: Option<Vec<String>>)
    ensures
        match utf8_decode(args@) {
            Some(text) => r matches Some(v) && v.deep_view() == split_ws(text),
            None => r is None,
        },
{
    match bytes_to_string(&args) {
        Some(_) => Some(args_from_output(args)),
        None => None,
    }
}

} // verus!
