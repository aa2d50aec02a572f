//! Document identifiers of the store: twelve bytes, written as 24 hex digits.

use mongodb::bson::oid::ObjectId;
use vstd::prelude::*;

verus! {

/// The twelve bytes of a document identifier.
#[derive(Clone, Copy, Debug)]
pub struct ObjectIdBytes {
    pub bytes: [u8; 12],
}

/// Whether `c` is a hex digit, in either case.
pub open spec fn is_hex_digit(c: char) -> bool {
    ||| ('0' as u32) <= (c as u32) <= ('9' as u32)
    ||| ('a' as u32) <= (c as u32) <= ('f' as u32)
    ||| ('A' as u32) <= (c as u32) <= ('F' as u32)
}

/// The value of a hex digit.
pub open spec fn hex_digit_value(c: char) -> int {
    if ('0' as u32) <= (c as u32) <= ('9' as u32) {
        c as u32 - ('0' as u32)
    } else if ('a' as u32) <= (c as u32) <= ('f' as u32) {
        c as u32 - ('a' as u32) + 10
    } else {
        c as u32 - ('A' as u32) + 10
    }
}

/// The bytes that a 24-digit hex text stands for, two digits per byte with the
/// high half first; `None` for any other text.
pub open spec fn object_id_from_hex(s: Seq<char>) -> Option<Seq<u8>> {
    if s.len() == 24 && forall|i: int| 0 <= i < 24 ==> #[trigger] is_hex_digit(s[i]) {
        Some(
            Seq::new(
                12,
                |i: int| (hex_digit_value(s[2 * i]) * 16 + hex_digit_value(s[2 * i + 1])) as u8,
            ),
        )
    } else {
        None
    }
}

/// The lower-case hex digit of a value below 16.
pub open spec fn lower_hex_digit(v: int) -> char {
    if v < 10 {
        (('0' as u32) + v) as char
    } else {
        (('a' as u32) + v - 10) as char
    }
}

/// Bytes written as lower-case hex, two digits per byte with the high half first.
pub open spec fn lower_hex(b: Seq<u8>) -> Seq<char> {
    Seq::new(
        2 * b.len(),
        |i: int|
            if i % 2 == 0 {
                lower_hex_digit(b[i / 2] as int / 16)
            } else {
                lower_hex_digit(b[i / 2] as int % 16)
            },
    )
}


/// A lower-case hex digit reads back as its value.
proof fn lemma_lower_hex_digit(v: int)
    requires
        0 <= v < 16,
    ensures
        is_hex_digit(lower_hex_digit(v)),
        hex_digit_value(lower_hex_digit(v)) == v,
{
    if v < 10 {
        assert((((('0' as u32) + v) as char) as u32) == ('0' as u32) + v);
    } else {
        assert((((('a' as u32) + v - 10) as char) as u32) == ('a' as u32) + v - 10);
    }
}

/// Writing twelve bytes as hex and reading the text back gives the same bytes:
/// an identifier listed by the server is accepted again where a path names one.
pub proof fn lemma_object_id_hex_roundtrip(b: Seq<u8>)
    requires
        b.len() == 12,
    ensures
        object_id_from_hex(lower_hex(b)) == Some(b),
{
    let s = lower_hex(b);
    assert forall|i: int| 0 <= i < 24 implies #[trigger] is_hex_digit(s[i]) by {
        if i % 2 == 0 {
            lemma_lower_hex_digit(b[i / 2] as int / 16);
        } else {
            lemma_lower_hex_digit(b[i / 2] as int % 16);
        }
    }
    let decoded = object_id_from_hex(s).unwrap();
    assert forall|i: int| 0 <= i < 12 implies #[trigger] decoded[i] == b[i] by {
        lemma_lower_hex_digit(b[i] as int / 16);
        lemma_lower_hex_digit(b[i] as int % 16);
        assert((2 * i) % 2 == 0);
        assert((2 * i + 1) % 2 == 1);
        assert((2 * i) / 2 == i);
        assert((2 * i + 1) / 2 == i);
    }
    assert(decoded =~= b);
}

/// The message that the error of `ObjectId::parse_str` on this text displays.
pub uninterp spec fn object_id_error_text(text: Seq<char>) -> Seq<char>;

/// `ObjectId::parse_str`, with the error turned into its message. The source
/// decodes the text's bytes as hex (digits of either case, two per byte, high
/// half first) and accepts exactly twelve bytes; a non-ASCII character is never
/// a hex digit, so this is the same as asking for 24 hex-digit characters. The
/// contract states that, and names the error message, which the source builds
/// from the text alone.
#[verifier::external_body]
pub(crate) fn parse_object_id(text: &str) -> (r: Result<[u8; 12], String>)
    ensures
        match r {
            Ok(b) => object_id_from_hex(text@) == Some(b@),
            Err(m) => object_id_from_hex(text@) is None && m@ == object_id_error_text(text@),
        },
{
    match ObjectId::parse_str(text) {
        Ok(id) => Ok(id.bytes()),
        Err(e) => Err(e.to_string()),
    }
}

/// `ObjectId::to_string` on the identifier with these bytes: its `Display`
/// writes `hex::encode` of the bytes, lower-case hex with the high half first.
#[verifier::external_body]
pub(crate) fn object_id_to_string(bytes: [u8; 12]) -> (r: String)
    ensures
        r@ == lower_hex(bytes@),
{
    ObjectId::from_bytes(bytes).to_string()
}

/// `ObjectId::new`: a fresh identifier made from the clock, the process and a
/// counter. Nothing is stated of its bytes.
#[verifier::external_body]
pub(crate) fn new_object_id() -> (r: [u8; 12]) {
    ObjectId::new().bytes()
}

} // verus!
