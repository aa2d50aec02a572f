//! Encodings that the server's credentials pass through: base64 text and UTF-8 bytes.

use vstd::prelude::*;
use vstd::utf8::*;

verus! {

/// The text that `base64::encode` (standard alphabet, with padding) gives for these bytes.
pub uninterp spec fn base64_encoded(bytes: Seq<u8>) -> Seq<char>;

/// What `base64::decode` (standard alphabet, canonical padding) gives for this text:
/// the bytes, or `None` where it reports an error.
pub uninterp spec fn base64_decoded(text: Seq<char>) -> Option<Seq<u8>>;

/// Whether `c` belongs to the standard base64 alphabet, padding included.
pub open spec fn is_base64_char(c: char) -> bool {
    ||| ('A' as u32) <= (c as u32) <= ('Z' as u32)
    ||| ('a' as u32) <= (c as u32) <= ('z' as u32)
    ||| ('0' as u32) <= (c as u32) <= ('9' as u32)
    ||| c == '+'
    ||| c == '/'
    ||| c == '='
}

/// `base64::encode`. The contract names the text it returns, states its
/// length (four characters for every three bytes or part of three, with `=`
/// padding) and that it uses the standard alphabet only, and states that
/// `base64::decode` gives the same bytes back from it: the standard engine pads
/// its output canonically and writes zero trailing bits, which is what its
/// decoder asks for.
#[verifier::external_body]
#[allow(deprecated)]
pub(crate) fn base64_encode(bytes: &[u8]) -> (r: String)
    ensures
        r@ == base64_encoded(bytes@),
        base64_decoded(r@) == Some(bytes@),
        r@.len() == 4 * ((bytes@.len() + 2) / 3),
        forall|i: int| 0 <= i < r@.len() ==> is_base64_char(#[trigger] r@[i]),
{
    base64::encode(bytes)
}

/// `base64::decode`, with its error dropped. The contract names the bytes it returns.
#[verifier::external_body]
#[allow(deprecated)]
pub(crate) fn base64_decode(text: &str) -> (r: Option<Vec<u8>>)
    ensures
        match r {
            Some(v) => base64_decoded(text@) == Some(v@),
            None => base64_decoded(text@) is None,
        },
{
    base64::decode(text).ok()
}

/// `String::from_utf8`, with its error dropped: the text that the bytes encode,
/// where they are valid UTF-8.
#[verifier::external_body]
pub(crate) fn string_from_utf8(bytes: Vec<u8>) -> (r: Option<String>)
    ensures
        r is Some <==> valid_utf8(bytes@),
        r matches Some(s) ==> s@ == decode_utf8(bytes@),
{
    String::from_utf8(bytes).ok()
}

} // verus!
