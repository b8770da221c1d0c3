//! Captured bytes as text.

use vstd::prelude::*;
use vstd::utf8::*;

verus! {

/// The text that permissive decoding makes of `bytes`: every valid UTF-8
/// sequence becomes its character, every invalid one the replacement character
/// U+FFFD. Decoding is total and depends on the bytes alone.
pub uninterp spec fn lossy_utf8(bytes: Seq<u8>) -> Seq<char>;

/// `String::from_utf8_lossy` of the standard library, with the result copied
/// into a `String` of its own. Assumed of it: the result is `lossy_utf8` of the
/// bytes, and where the bytes are valid UTF-8 nothing is replaced, so that the
/// result is the string that consists of exactly these bytes.
#[verifier::external_body]
fn from_utf8_lossy(bytes: &[u8]) -> (text: String)
    ensures
        text@ == lossy_utf8(bytes@),
        valid_utf8(bytes@) ==> encode_utf8(text@) == bytes@,
{
    String::from_utf8_lossy(bytes).into_owned()
}

/// Decodes captured output. Invalid byte sequences are replaced, never
/// rejected. Valid UTF-8 comes out as the text it encodes, whose encoding is
/// the captured bytes again: nothing is lost and nothing added.
pub fn decode_output(bytes: &[u8]) -> (text: String)
    ensures
        text@ == lossy_utf8(bytes@),
        valid_utf8(bytes@) ==> text@ == decode_utf8(bytes@) && encode_utf8(text@) == bytes@,
{
    let text = from_utf8_lossy(bytes);
    proof {
        if valid_utf8(bytes@) {
            encode_utf8_decode_utf8(text@);
        }
    }
    text
}

} // verus!
