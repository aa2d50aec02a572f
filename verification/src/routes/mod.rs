//! What the server's routes read and answer, and the checks they share.

pub mod authorization;
pub mod errors_catch;
pub mod is_authorization;
pub mod messages;

use crate::model::User;
use crate::object_id::{object_id_error_text, object_id_from_hex, parse_object_id, ObjectIdBytes};
use vstd::prelude::*;
use vstd::utf8::encode_utf8;

verus! {

/// The HTTP statuses that the routes answer with.
#[derive(Debug, Clone, Copy, PartialEq, Eq, Structural)]
pub enum Status {
    Success,
    BadRequest,
    Unauthorized,
    NotFound,
    InternalServerError,
}

impl Status {
    /// The numeric HTTP code of this status.
    pub open spec fn spec_code(self) -> u16 {
        match self {
            Status::Success => 200,
            Status::BadRequest => 400,
            Status::Unauthorized => 401,
            Status::NotFound => 404,
            Status::InternalServerError => 500,
        }
    }

    /// The numeric HTTP code of this status.
    pub fn code(&self) -> (r: u16)
        ensures
            r == self.spec_code(),
    {
        match self {
            Status::Success => 200,
            Status::BadRequest => 400,
            Status::Unauthorized => 401,
            Status::NotFound => 404,
            Status::InternalServerError => 500,
        }
    }
}

/// What a request guard makes of an `Authorization` header: credentials it
/// accepts, a header it rejects (the request is then unauthorized), or a
/// header so short that reading it would fail.
#[derive(Debug)]
pub enum HeaderOutcome<T> {
    Accepted(T),
    Rejected,
    Malformed,
}

/// A request to the document store that failed.
#[derive(Debug, Clone, Copy, PartialEq, Eq, Structural)]
pub struct DbError;

/// A name and a password, as a client sends them to register or to log in.
#[derive(Debug)]
pub struct UserDboPassUser {
    pub username: String,
    pub password: String,
}

/// An account as it is listed: its identifier in hex and its name.
#[derive(Debug)]
pub struct UserDboIdUser {
    pub _id: String,
    pub username: String,
}

/// What a successful registration answers: the token for the new account.
#[derive(Debug)]
pub struct RegistrationResponse {
    pub token: String,
}

/// A message as a client sends it, with the identifiers still in hex.
#[derive(Debug)]
pub struct MessageDBO {
    pub body: String,
    pub to: String,
    pub from: String,
}

/// A message whose identifiers have been read.
#[derive(Debug)]
pub struct MessageDBOId {
    pub body: String,
    pub to: ObjectIdBytes,
    pub from: ObjectIdBytes,
}

/// A message between two accounts, with both named.
#[derive(Debug)]
pub struct MessageTwoUsers {
    pub body: String,
    pub to: String,
    pub from: String,
    pub time: String,
}

/// The length in bytes of the UTF-8 encoding of a text, as `str::len` gives it.
pub open spec fn byte_len(s: Seq<char>) -> usize {
    encode_utf8(s).len() as usize
}

/// A message body is accepted when it is not empty and its UTF-8 encoding is
/// shorter than 200 bytes.
pub open spec fn message_body_valid(body: Seq<char>) -> bool {
    body.len() > 0 && encode_utf8(body).len() < 200
}

/// A name and a password are accepted for registration when neither is empty,
/// the name is shorter than 12 bytes and the password has 8 to 17 bytes, in UTF-8.
pub open spec fn user_data_well_formed_spec(username: Seq<char>, password: Seq<char>) -> bool {
    &&& username.len() > 0
    &&& password.len() > 0
    &&& encode_utf8(username).len() < 12
    &&& 8 <= encode_utf8(password).len() < 18
}

/// The rule for message bodies, stated over the body alone: it is accepted
/// exactly when it has a character and fewer than 200 bytes in UTF-8. So "hello
/// world" is accepted, the empty text is not, and neither is a text of 200 bytes.
pub proof fn lemma_message_body_rule(body: Seq<char>)
    ensures
        message_body_valid(body) <==> (body.len() > 0 && encode_utf8(body).len() < 200),
        body.len() == 0 ==> !message_body_valid(body),
        encode_utf8(body).len() >= 200 ==> !message_body_valid(body),
{
}

/// The UTF-8 length of a text, in bytes.
fn utf8_len(s: &str) -> (r: usize)
    ensures
        r == encode_utf8(s@).len(),
{
    s.as_bytes().len()
}

/// What the search for an account by name tells the routes: `Err` with the
/// account when one is found, `Ok(true)` when none is, `Ok(false)` when the
/// search itself failed.
pub open spec fn login_spec(lookup: Result<Option<User>, DbError>) -> Result<bool, User> {
    match lookup {
        Ok(Some(user)) => Err(user),
        Ok(None) => Ok(true),
        Err(_) => Ok(false),
    }
}

/// Reads a document identifier written as 24 hex digits; for any other text,
/// answers the message of the store library's error.
pub fn object_id_parse_str(id_str: String) -> (r: Result<ObjectIdBytes, String>)
    ensures
        match r {
            Ok(id) => object_id_from_hex(id_str@) == Some(id.bytes@),
            Err(m) => object_id_from_hex(id_str@) is None && m@ == object_id_error_text(id_str@),
        },
{
    match parse_object_id(id_str.as_str()) {
        Ok(bytes) => Ok(ObjectIdBytes { bytes }),
        Err(error) => Err(error),
    }
}

/// Whether a message body may be stored: it is not empty and its UTF-8
/// encoding is shorter than 200 bytes.
pub fn get_is_valid_message_data(body: String) -> (r: bool)
    ensures
        r == message_body_valid(body@),
        r == (body@.len() > 0 && encode_utf8(body@).len() < 200),
{
    if !body.as_str().is_empty() {
        if utf8_len(body.as_str()) < 200 {
            true
        } else {
            false
        }
    } else {
        false
    }
}

/// Whether a name and a password have the shape that registration asks for.
pub fn user_data_well_formed(user: &UserDboPassUser) -> (r: bool)
    ensures
        r == user_data_well_formed_spec(user.username@, user.password@),
        r == (user.username@.len() > 0 && user.password@.len() > 0 && encode_utf8(user.username@).len()
            < 12 && 8 <= encode_utf8(user.password@).len() < 18),
{
    let username = user.username.as_str();
    let password = user.password.as_str();
    if !username.is_empty() && !password.is_empty() {
        utf8_len(username) < 12 && utf8_len(password) >= 8 && utf8_len(password) < 18
    } else {
        false
    }
}

/// Whether a registration may go ahead: the name and the password have the
/// right shape, and the search for the name found no account.
pub fn get_is_valid_user_data(user: &UserDboPassUser, login_result: &Result<bool, User>) -> (r:
    bool)
    ensures
        r == (user_data_well_formed_spec(user.username@, user.password@) && *login_result
            == Ok::<bool, User>(true)),
{
    if user_data_well_formed(user) {
        match login_result {
            Ok(true) => true,
            Ok(false) => false,
            Err(_) => false,
        }
    } else {
        false
    }
}

/// Turns the outcome of the search for an account by name into the answer
/// the routes work with (see `login_spec`).
pub fn login(lookup: Result<Option<User>, DbError>) -> (r: Result<bool, User>)
    ensures
        r == login_spec(lookup),
{
    match lookup {
        Ok(user_login) => match user_login {
            Some(result) => Err(result),
            None => Ok(true),
        },
        Err(_) => Ok(false),
    }
}

} // verus!
