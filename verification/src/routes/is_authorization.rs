//! Basic credentials: a name and a password.

use crate::codec::{base64_decode, base64_decoded, string_from_utf8};
use crate::routes::HeaderOutcome;
use crate::text::{
    lemma_split_at_first, lemma_split_without_char, lemma_whitespace_tokens_shape, split_by, split_on, split_whitespace_tokens, strings_view,
    text_eq, whitespace_tokens,
};
use vstd::prelude::*;
use vstd::utf8::*;

verus! {

/// The credentials of a basic header: a name and a password.
#[derive(Debug)]
pub struct BasicAuth {
    pub username: String,
    pub password: String,
}

/// The separator between name and password.
pub open spec fn basic_separator() -> Seq<char> {
    seq![':']
}

/// Whether a decoded credential text can be read: the separator `:` occurs in it.
pub open spec fn basic_text_readable(text: Seq<char>) -> bool {
    split_on(text, basic_separator()).len() >= 2
}

/// The name and password of a decoded credential text: the pieces before the
/// first `:` and between the first and the second.
pub open spec fn basic_from_text(text: Seq<char>) -> (Seq<char>, Seq<char>) {
    let parts = split_on(text, basic_separator());
    (parts[0], parts[1])
}

/// Whether decoded credential bytes can be read: they are not UTF-8, or
/// their text can be read.
pub open spec fn basic_bytes_readable(bytes: Seq<u8>) -> bool {
    valid_utf8(bytes) ==> basic_text_readable(decode_utf8(bytes))
}

/// The name and password of decoded credential bytes, if they are UTF-8.
pub open spec fn basic_from_bytes(bytes: Seq<u8>) -> Option<(Seq<char>, Seq<char>)> {
    if valid_utf8(bytes) {
        Some(basic_from_text(decode_utf8(bytes)))
    } else {
        None
    }
}

/// Whether a base64 token can be read: it is not base64, or its bytes can be read.
pub open spec fn basic_token_readable(token: Seq<char>) -> bool {
    match base64_decoded(token) {
        Some(bytes) => basic_bytes_readable(bytes),
        None => true,
    }
}

/// The name and password of a base64 token.
pub open spec fn basic_from_token(token: Seq<char>) -> Option<(Seq<char>, Seq<char>)> {
    match base64_decoded(token) {
        Some(bytes) => basic_from_bytes(bytes),
        None => None,
    }
}

/// Whether a header can be read: it holds two words at least, and its second
/// word can be read.
pub open spec fn basic_header_readable(header: Seq<char>) -> bool {
    whitespace_tokens(header).len() >= 2 && basic_token_readable(whitespace_tokens(header)[1])
}

/// Whether `r` holds exactly the name and password `expected`.
pub open spec fn basic_auth_is(r: Option<BasicAuth>, expected: Option<(Seq<char>, Seq<char>)>) -> bool {
    match r {
        Some(a) => expected == Some((a.username@, a.password@)),
        None => expected is None,
    }
}

/// A name and a password without `:`, joined by `:`, encoded as UTF-8 and
/// then as base64, are read back as that name and that password.
pub proof fn lemma_basic_credentials_roundtrip(token: Seq<char>, username: Seq<char>, password: Seq<
    char,
>)
    requires
        base64_decoded(token) == Some(encode_utf8(username + seq![':'] + password)),
        !username.contains(':'),
        !password.contains(':'),
    ensures
        basic_token_readable(token),
        basic_from_token(token) == Some((username, password)),
{
    broadcast use vstd::utf8::group_utf8_lib;

    let text = username + seq![':'] + password;
    assert(decode_utf8(encode_utf8(text)) == text);
    lemma_split_at_first(username, ':', password);
    lemma_split_without_char(password, ':');
    assert(seq![':'] == basic_separator());
    assert(split_on(text, basic_separator()) =~= seq![username, password]);
}

impl BasicAuth {
    /// Reads the credentials of a header of the form `<scheme> <token>`.
    pub fn from_authorization_header(header: &str) -> (r: Option<BasicAuth>)
        requires
            basic_header_readable(header@),
        ensures
            basic_auth_is(r, basic_from_token(whitespace_tokens(header@)[1])),
    {
        let split = split_whitespace_tokens(header);
        proof {
            lemma_whitespace_tokens_shape(header@);
            assert(strings_view(split@)[1] == split@[1]@);
        }
        if split.len() != 2 && split[1].as_str().is_empty() && !text_eq(split[0].as_str(), "Basic") {
            return None;
        }
        Self::from_base64_encoded(split[1].as_str())
    }

    /// Reads the credentials of a base64 token.
    pub fn from_base64_encoded(base64_string: &str) -> (r: Option<BasicAuth>)
        requires
            basic_token_readable(base64_string@),
        ensures
            basic_auth_is(r, basic_from_token(base64_string@)),
    {
        match base64_decode(base64_string) {
            Some(decoded) => Self::from_decoded_bytes(decoded),
            None => None,
        }
    }

    /// Reads the credentials of a decoded token: the name before the first
    /// `:`, the password between the first `:` and the next.
    pub fn from_decoded_bytes(decoded: Vec<u8>) -> (r: Option<BasicAuth>)
        requires
            basic_bytes_readable(decoded@),
        ensures
            basic_auth_is(r, basic_from_bytes(decoded@)),
    {
        let decoded_str = match string_from_utf8(decoded) {
            Some(text) => text,
            None => return None,
        };
        proof {
            reveal_strlit(":");
            assert(":"@ =~= basic_separator());
        }
        let split = split_by(decoded_str.as_str(), ":");
        proof {
            assert(strings_view(split@)[0] == split@[0]@);
            assert(strings_view(split@)[1] == split@[1]@);
        }
        let username = split[0].clone();
        let password = split[1].clone();
        Some(BasicAuth { username, password })
    }

    /// What the request guard makes of the `Authorization` header, if there is one.
    pub fn from_request_header(header: Option<&str>) -> (r: HeaderOutcome<BasicAuth>)
        ensures
            match header {
                None => r is Rejected,
                Some(h) => if !basic_header_readable(h@) {
                    r is Malformed
                } else {
                    match basic_from_token(whitespace_tokens(h@)[1]) {
                        Some(p) => r matches HeaderOutcome::Accepted(a) && (a.username@, a.password@) == p,
                        None => r is Rejected,
                    }
                },
            },
    {
        match header {
            None => HeaderOutcome::Rejected,
            Some(auth_header) => {
                let tokens = split_whitespace_tokens(auth_header);
                if tokens.len() < 2 {
                    return HeaderOutcome::Malformed;
                }
                proof {
                    assert(strings_view(tokens@)[1] == tokens@[1]@);
                    reveal_strlit(":");
                    assert(":"@ =~= basic_separator());
                }
                if let Some(bytes) = base64_decode(tokens[1].as_str()) {
                    if let Some(text) = string_from_utf8(bytes) {
                        let parts = split_by(text.as_str(), ":");
                        if parts.len() < 2 {
                            return HeaderOutcome::Malformed;
                        }
                    }
                }
                match Self::from_authorization_header(auth_header) {
                    Some(auth) => HeaderOutcome::Accepted(auth),
                    None => HeaderOutcome::Rejected,
                }
            },
        }
    }
}

} // verus!
