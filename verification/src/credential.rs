//! The key under which the location service is asked, as a file holds it.

use vstd::prelude::*;
use vstd::utf8::{decode_utf8, decode_utf8_encode_utf8, encode_utf8, valid_utf8};

verus! {

/// `String::from_utf8` of the standard library, its error dropped. Taken on
/// trust: the bytes come back as text exactly where they are well-formed
/// UTF-8, and the text is then what they encode.
#[verifier::external_body]
fn text_of_utf8(bytes: Vec<u8>) -> (text: Option<String>)
    ensures
        text is Some <==> valid_utf8(bytes@),
        text matches Some(s) ==> s@ == decode_utf8(bytes@),
{
    String::from_utf8(bytes).ok()
}

/// The key that a file with these contents holds: all of the contents, read
/// as UTF-8, with nothing trimmed and nothing checked but the encoding.
/// There is no key where the contents are not UTF-8.
pub fn api_key_from_contents(contents: Vec<u8>) -> (key: Option<String>)
    ensures
        key is Some <==> valid_utf8(contents@),
        key matches Some(k) ==> k@ == decode_utf8(contents@) && encode_utf8(k@) == contents@,
{
    proof {
        if valid_utf8(contents@) {
            decode_utf8_encode_utf8(contents@);
        }
    }
    text_of_utf8(contents)
}

} // verus!
