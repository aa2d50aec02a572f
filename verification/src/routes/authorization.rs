//! Bearer credentials, registration and login.

use crate::codec::{
    base64_decode, base64_decoded, base64_encode, base64_encoded, is_base64_char, string_from_utf8,
};
use crate::database::new_account_record;
use crate::model::User;
use crate::password::{bcrypt_verified, bcrypt_verify};
use crate::routes::{
    get_is_valid_user_data, login, login_spec, user_data_well_formed, user_data_well_formed_spec,
    DbError, HeaderOutcome, RegistrationResponse, Status, UserDboPassUser,
};
use crate::text::{
    char_is_whitespace, lemma_split_single_piece, lemma_two_words, lemma_whitespace_tokens_shape,
    occurs_in, split_by,
    split_whitespace_tokens, strings_view, text_eq, whitespace_tokens,
};
use vstd::prelude::*;
use vstd::utf8::*;

verus! {

broadcast use vstd::utf8::group_utf8_lib;

/// The credentials of a bearer header: a password.
#[derive(Debug)]
pub struct Authorization {
    pub password: String,
}

/// The separator that may not occur in a bearer credential.
pub open spec fn credential_separator() -> Seq<char> {
    seq![':', ':', ':']
}

/// The password that a decoded credential text carries: the whole text,
/// unless the separator `:::` occurs in it.
pub open spec fn authorization_from_text(text: Seq<char>) -> Option<Seq<char>> {
    if occurs_in(text, credential_separator()) {
        None
    } else {
        Some(text)
    }
}

/// The password that decoded credential bytes carry, if they are UTF-8.
pub open spec fn authorization_from_bytes(bytes: Seq<u8>) -> Option<Seq<char>> {
    if valid_utf8(bytes) {
        authorization_from_text(decode_utf8(bytes))
    } else {
        None
    }
}

/// The password that a base64 token carries.
pub open spec fn authorization_from_token(token: Seq<char>) -> Option<Seq<char>> {
    match base64_decoded(token) {
        Some(bytes) => authorization_from_bytes(bytes),
        None => None,
    }
}

/// The password that an `Authorization` header carries: its second word read
/// as a token; `None` for a header of fewer than two words.
pub open spec fn authorization_from_header(header: Seq<char>) -> Option<Seq<char>> {
    if whitespace_tokens(header).len() >= 2 {
        authorization_from_token(whitespace_tokens(header)[1])
    } else {
        None
    }
}

/// Whether a text holds no white space.
pub open spec fn no_white_space(s: Seq<char>) -> bool {
    forall|i: int| 0 <= i < s.len() ==> !char_is_whitespace(#[trigger] s[i])
}

/// Whether `r` holds exactly the password `expected`.
pub open spec fn authorization_is(r: Option<Authorization>, expected: Option<Seq<char>>) -> bool {
    match r {
        Some(a) => expected == Some(a.password@),
        None => expected is None,
    }
}

/// The token handed out at registration: the password's UTF-8 bytes in base64.
pub open spec fn registration_token_spec(password: Seq<char>) -> Seq<char> {
    base64_encoded(encode_utf8(password))
}

impl Authorization {
    /// Reads the credentials of a header of the form `<scheme> <token>`. The
    /// header must hold at least two words: reading the second word of a
    /// shorter one fails.
    pub fn from_authorization_header(header: &str) -> (r: Option<Authorization>)
        requires
            whitespace_tokens(header@).len() >= 2,
        ensures
            authorization_is(r, authorization_from_token(whitespace_tokens(header@)[1])),
    {
        let split = split_whitespace_tokens(header);
        proof {
            lemma_whitespace_tokens_shape(header@);
            assert(strings_view(split@)[1] == split@[1]@);
        }
        if split.len() != 2 && split[1].as_str().is_empty() && !text_eq(
            split[0].as_str(),
            "Authorization",
        ) {
            return None;
        }
        Self::from_base64_encoded(split[1].as_str())
    }

    /// Reads the credentials of a base64 token.
    pub fn from_base64_encoded(base64_string: &str) -> (r: Option<Authorization>)
        ensures
            authorization_is(r, authorization_from_token(base64_string@)),
            match base64_decoded(base64_string@) {
                Some(b) => if valid_utf8(b) && !occurs_in(decode_utf8(b), seq![':', ':', ':']) {
                    r matches Some(a) && a.password@ == decode_utf8(b)
                } else {
                    r is None
                },
                None => r is None,
            },
    {
        match base64_decode(base64_string) {
            Some(decoded) => Self::from_decoded_bytes(decoded),
            None => None,
        }
    }

    /// Reads the credentials of a decoded token: its text, if it is UTF-8 and
    /// the separator `:::` does not occur in it.
    pub fn from_decoded_bytes(decoded: Vec<u8>) -> (r: Option<Authorization>)
        ensures
            authorization_is(r, authorization_from_bytes(decoded@)),
            valid_utf8(decoded@) && !occurs_in(decode_utf8(decoded@), seq![':', ':', ':']) ==> (r matches Some(
                a,
            ) && a.password@ == decode_utf8(decoded@)),
            !valid_utf8(decoded@) || occurs_in(decode_utf8(decoded@), seq![':', ':', ':']) ==> r is None,
    {
        let ghost bytes = decoded@;
        let decoded_str = match string_from_utf8(decoded) {
            Some(text) => text,
            None => return None,
        };
        proof {
            reveal_strlit(":::");
            assert(":::"@ =~= credential_separator());
        }
        let split = split_by(decoded_str.as_str(), ":::");
        proof {
            lemma_split_single_piece(decoded_str@, credential_separator());
            if split@.len() == 1 {
                assert(strings_view(split@)[0] == split@[0]@);
            }
        }
        if split.len() != 1 {
            return None;
        }
        Some(Authorization { password: split[0].clone() })
    }

    /// What the request guard makes of the `Authorization` header, if there is one.
    pub fn from_request_header(header: Option<&str>) -> (r: HeaderOutcome<Authorization>)
        ensures
            match header {
                None => r is Rejected,
                Some(h) => if whitespace_tokens(h@).len() < 2 {
                    r is Malformed
                } else {
                    match authorization_from_token(whitespace_tokens(h@)[1]) {
                        Some(p) => r matches HeaderOutcome::Accepted(a) && a.password@ == p,
                        None => r is Rejected,
                    }
                },
            },
    {
        match header {
            None => HeaderOutcome::Rejected,
            Some(auth_header) => {
                let tokens = split_whitespace_tokens(auth_header);
                if tokens.len() < 2 {
                    HeaderOutcome::Malformed
                } else {
                    match Self::from_authorization_header(auth_header) {
                        Some(auth) => HeaderOutcome::Accepted(auth),
                        None => HeaderOutcome::Rejected,
                    }
                }
            },
        }
    }
}

/// What a bearer credential is, over the decoded bytes alone: UTF-8 text in
/// which `:::` does not occur is the password, all of it; other bytes give no
/// credential. So the bytes of "correct horse" give the password
/// "correct horse", spaces included.
pub proof fn lemma_decoded_credential_rule(bytes: Seq<u8>)
    ensures
        valid_utf8(bytes) && !occurs_in(decode_utf8(bytes), seq![':', ':', ':'])
            ==> authorization_from_bytes(bytes) == Some(decode_utf8(bytes)),
        !valid_utf8(bytes) || occurs_in(decode_utf8(bytes), seq![':', ':', ':'])
            ==> authorization_from_bytes(bytes) is None,
{
}

/// The password of any UTF-8 text without `:::` survives encoding: its UTF-8
/// bytes read back as a credential give the text itself.
pub proof fn lemma_text_without_separator_is_password(text: Seq<char>)
    requires
        !occurs_in(text, seq![':', ':', ':']),
    ensures
        authorization_from_bytes(encode_utf8(text)) == Some(text),
{
    assert(decode_utf8(encode_utf8(text)) == text);
}

/// The token for a password: its UTF-8 bytes in base64. Read back as a
/// bearer credential, it gives the password again, unless `:::` occurs in it;
/// and so does a header made of a scheme word, a space and the token, for a
/// password that is not empty.
pub fn registration_token(password: &str) -> (r: String)
    ensures
        r@ == registration_token_spec(password@),
        authorization_from_token(r@) == authorization_from_text(password@),
        password@.len() > 0 ==> forall|scheme: Seq<char>|
            scheme.len() > 0 && no_white_space(scheme) ==> #[trigger] authorization_from_header(
                scheme + seq![' '] + r@,
            ) == authorization_from_text(password@),
{
    let token = base64_encode(password.as_bytes());
    proof {
        assert(base64_decoded(token@) == Some(encode_utf8(password@)));
        assert(decode_utf8(encode_utf8(password@)) == password@);
        if password@.len() > 0 {
            if encode_utf8(password@).len() == 0 {
                assert(decode_utf8(encode_utf8(password@)) =~= Seq::<char>::empty());
            }
            assert(token@.len() > 0);
            assert forall|i: int| 0 <= i < token@.len() implies !char_is_whitespace(#[trigger] token@[i]) by {
                assert(is_base64_char(token@[i]));
            }
            assert forall|scheme: Seq<char>|
                scheme.len() > 0 && no_white_space(scheme) implies #[trigger] authorization_from_header(
                scheme + seq![' '] + token@,
            ) == authorization_from_text(password@) by {
                lemma_two_words(scheme, ' ', token@);
            }
        }
    }
    token
}


/// The answer to a login, given the password sent and what the search for
/// the name found (see `login_spec`): unauthorized when no account was found
/// or the search failed, success when the password matches the stored hash,
/// unauthorized when it does not, a server error when the hash cannot be read.
pub open spec fn login_outcome(password: Seq<char>, found: Result<bool, User>) -> Result<
    Status,
    Status,
> {
    match found {
        Ok(_) => Err(Status::Unauthorized),
        Err(user) => match bcrypt_verified(password, user.password@) {
            Some(true) => Ok(Status::Success),
            Some(false) => Err(Status::Unauthorized),
            None => Err(Status::InternalServerError),
        },
    }
}

/// What a login answers, over the password sent and what the store holds:
/// success exactly when an account was found and bcrypt accepts the password
/// against its hash; unauthorized when no account was found, the search
/// failed, or bcrypt refuses the password, whatever the password is; a server
/// error only when bcrypt cannot read the stored hash.
pub proof fn lemma_login_rule(password: Seq<char>, lookup: Result<Option<User>, DbError>)
    ensures
        login_outcome(password, login_spec(lookup)) == Ok::<Status, Status>(Status::Success) <==> (
        lookup matches Ok(Some(u)) && bcrypt_verified(password, u.password@) == Some(true)),
        login_outcome(password, login_spec(lookup)) == Err::<Status, Status>(
            Status::InternalServerError,
        ) <==> (lookup matches Ok(Some(u)) && bcrypt_verified(password, u.password@) is None),
        (lookup matches Ok(Some(u)) && bcrypt_verified(password, u.password@) == Some(false))
            ==> login_outcome(password, login_spec(lookup)) == Err::<Status, Status>(
            Status::Unauthorized,
        ),
        !(lookup matches Ok(Some(_))) ==> login_outcome(password, login_spec(lookup)) == Err::<
            Status,
            Status,
        >(Status::Unauthorized),
{
}

/// The next thing a login does.
#[derive(Debug)]
pub enum LoginAction {
    /// Search the store for the account with this name.
    LookUpUser { username: String },
    /// Answer the request.
    Respond(Result<Status, Status>),
}

/// The first step of a login: without a form the request is unauthorized;
/// with one, the account with the form's name is searched for.
pub fn post_login_begin(form: Option<&UserDboPassUser>) -> (r: LoginAction)
    ensures
        match form {
            None => r == LoginAction::Respond(Err(Status::Unauthorized)),
            Some(f) => r matches LoginAction::LookUpUser { username } && username@ == f.username@,
        },
{
    match form {
        Some(form) => LoginAction::LookUpUser { username: form.username.clone() },
        None => LoginAction::Respond(Err(Status::Unauthorized)),
    }
}

/// The answer to a login, once the search for the name has come back.
pub fn post_login_on_lookup(form: &UserDboPassUser, lookup: Result<Option<User>, DbError>) -> (r:
    Result<Status, Status>)
    ensures
        r == login_outcome(form.password@, login_spec(lookup)),
        match lookup {
            Ok(Some(u)) => match bcrypt_verified(form.password@, u.password@) {
                Some(true) => r == Ok::<Status, Status>(Status::Success),
                Some(false) => r == Err::<Status, Status>(Status::Unauthorized),
                None => r == Err::<Status, Status>(Status::InternalServerError),
            },
            _ => r == Err::<Status, Status>(Status::Unauthorized),
        },
{
    match login(lookup) {
        Ok(_) => Err(Status::Unauthorized),
        Err(result) => match bcrypt_verify(form.password.as_str(), result.password.as_str()) {
            Some(true) => Ok(Status::Success),
            Some(false) => Err(Status::Unauthorized),
            None => Err(Status::InternalServerError),
        },
    }
}

/// The next thing a registration does.
#[derive(Debug)]
pub enum RegistrationAction {
    /// Search the store for an account with this name.
    LookUpUser { username: String },
    /// Make the account record for the form (see `post_registration_create`).
    CreateAccount,
    /// Store this account record.
    StoreAccount { user: User },
    /// Answer the request.
    Respond(Result<RegistrationResponse, Status>),
}

/// Whether `r` answers with exactly this error.
pub open spec fn registration_fails_with(r: RegistrationAction, status: Status) -> bool {
    r matches RegistrationAction::Respond(Err(s)) && s == status
}

/// Whether `r` answers with success and the token for this password.
pub open spec fn registration_succeeds_with(r: RegistrationAction, password: Seq<char>) -> bool {
    r matches RegistrationAction::Respond(Ok(resp)) && resp.token@ == registration_token_spec(
        password,
    )
}

/// The first step of a registration: without a form, or with a name or
/// password of the wrong shape, the request is bad; otherwise the name is
/// searched for.
pub fn post_registration_begin(form: Option<&UserDboPassUser>) -> (r: RegistrationAction)
    ensures
        match form {
            None => registration_fails_with(r, Status::BadRequest),
            Some(f) => if user_data_well_formed_spec(f.username@, f.password@) {
                r matches RegistrationAction::LookUpUser { username } && username@ == f.username@
            } else {
                registration_fails_with(r, Status::BadRequest)
            },
        },
{
    match form {
        Some(form) => {
            if user_data_well_formed(form) {
                RegistrationAction::LookUpUser { username: form.username.clone() }
            } else {
                RegistrationAction::Respond(Err(Status::BadRequest))
            }
        },
        None => RegistrationAction::Respond(Err(Status::BadRequest)),
    }
}

/// The step of a registration once the search for the name has come back:
/// unless the form is well formed and no account has the name, the request is
/// bad; otherwise the account record is to be made.
pub fn post_registration_on_lookup(form: &UserDboPassUser, lookup: Result<Option<User>, DbError>) -> (r:
    RegistrationAction)
    ensures
        if user_data_well_formed_spec(form.username@, form.password@) && lookup == Ok::<
            Option<User>,
            DbError,
        >(None) {
            r == RegistrationAction::CreateAccount
        } else {
            registration_fails_with(r, Status::BadRequest)
        },
{
    let found = login(lookup);
    if get_is_valid_user_data(form, &found) {
        RegistrationAction::CreateAccount
    } else {
        RegistrationAction::Respond(Err(Status::BadRequest))
    }
}

/// The step of a registration that makes the account record: the record to
/// store, or, where hashing the password failed, the token answered without
/// storing anything. Which of the two depends on the system's random bytes.
pub fn post_registration_create(form: &UserDboPassUser) -> (r: RegistrationAction)
    ensures
        registration_succeeds_with(r, form.password@) || (r matches RegistrationAction::StoreAccount {
            user,
        } && user.username@ == form.username@ && user.password@.take(7) == seq![
            '$',
            '2',
            'b',
            '$',
            '0',
            '4',
            '$',
        ] && bcrypt_verified(form.password@, user.password@) == Some(true)),
{
    let record = new_account_record(form);
    post_registration_on_record(form, record)
}

/// The step of a registration once the account record has been made: store
/// it, or, where there is none, answer with the token.
pub fn post_registration_on_record(form: &UserDboPassUser, record: Option<User>) -> (r:
    RegistrationAction)
    ensures
        match record {
            Some(u) => r == RegistrationAction::StoreAccount { user: u },
            None => registration_succeeds_with(r, form.password@),
        },
{
    match record {
        Some(user) => RegistrationAction::StoreAccount { user },
        None => {
            let token = registration_token(form.password.as_str());
            RegistrationAction::Respond(Ok(RegistrationResponse { token }))
        },
    }
}

/// The answer to a registration once the account record has been stored, or
/// storing it failed.
pub fn post_registration_on_store(form: &UserDboPassUser, stored: Result<(), DbError>) -> (r:
    Result<RegistrationResponse, Status>)
    ensures
        match stored {
            Ok(_) => r matches Ok(resp) && resp.token@ == registration_token_spec(form.password@),
            Err(_) => r == Err::<RegistrationResponse, Status>(Status::InternalServerError),
        },
{
    match stored {
        Ok(_) => {
            let token = registration_token(form.password.as_str());
            Ok(RegistrationResponse { token })
        },
        Err(_) => Err(Status::InternalServerError),
    }
}

} // verus!
