//! The message routes: listing accounts, sending a message, listing who wrote
//! to an account, and listing the messages between two accounts.

use crate::database::UsernameSet;
use crate::object_id::{object_id_from_hex, ObjectIdBytes};
use crate::routes::{
    get_is_valid_message_data, message_body_valid, object_id_parse_str, DbError, MessageDBO,
    MessageDBOId, MessageTwoUsers, Status, UserDboIdUser,
};
use vstd::prelude::*;

verus! {

/// The answer to listing the accounts: the list, or a server error where the
/// store failed.
pub fn get_all_acc_response(users: Result<Vec<UserDboIdUser>, DbError>) -> (r: Result<
    Vec<UserDboIdUser>,
    Status,
>)
    ensures
        match users {
            Ok(u) => r == Ok::<Vec<UserDboIdUser>, Status>(u),
            Err(_) => r == Err::<Vec<UserDboIdUser>, Status>(Status::InternalServerError),
        },
{
    match users {
        Ok(users) => Ok(users),
        Err(_) => Err(Status::InternalServerError),
    }
}

/// What a sent message is checked into: the message to store, with both
/// identifiers read, or a bad request where there is no form, an identifier is
/// not 24 hex digits, or the body is empty or 200 bytes long or more.
pub fn post_new_message_plan(form: Option<&MessageDBO>) -> (r: Result<MessageDBOId, Status>)
    ensures
        match form {
            None => r == Err::<MessageDBOId, Status>(Status::BadRequest),
            Some(f) => match (object_id_from_hex(f.to@), object_id_from_hex(f.from@)) {
                (Some(to), Some(from)) => if message_body_valid(f.body@) {
                    r matches Ok(m) && m.body@ == f.body@ && m.to.bytes@ == to && m.from.bytes@
                        == from
                } else {
                    r == Err::<MessageDBOId, Status>(Status::BadRequest)
                },
                _ => r == Err::<MessageDBOId, Status>(Status::BadRequest),
            },
        },
{
    match form {
        Some(form) => match object_id_parse_str(form.to.clone()) {
            Ok(to_id) => match object_id_parse_str(form.from.clone()) {
                Ok(from_id) => {
                    if get_is_valid_message_data(form.body.clone()) {
                        let result = MessageDBOId { body: form.body.clone(), to: to_id, from: from_id };
                        Ok(result)
                    } else {
                        Err(Status::BadRequest)
                    }
                },
                Err(_) => Err(Status::BadRequest),
            },
            Err(_) => Err(Status::BadRequest),
        },
        None => Err(Status::BadRequest),
    }
}

/// The answer to a sent message once storing it succeeded or failed.
pub fn post_new_message_response(stored: Result<(), DbError>) -> (r: Result<Status, Status>)
    ensures
        match stored {
            Ok(_) => r == Ok::<Status, Status>(Status::Success),
            Err(_) => r == Err::<Status, Status>(Status::InternalServerError),
        },
{
    match stored {
        Ok(_) => Ok(Status::Success),
        Err(_) => Err(Status::InternalServerError),
    }
}

/// The account whose correspondents are listed: its identifier, or a bad
/// request where it is not 24 hex digits.
pub fn get_all_preview_plan(id: String) -> (r: Result<ObjectIdBytes, Status>)
    ensures
        match object_id_from_hex(id@) {
            Some(b) => r matches Ok(i) && i.bytes@ == b,
            None => r == Err::<ObjectIdBytes, Status>(Status::BadRequest),
        },
{
    match object_id_parse_str(id) {
        Ok(id) => Ok(id),
        Err(_) => Err(Status::BadRequest),
    }
}

/// The answer to listing correspondents: the names, or not found where the
/// store failed.
pub fn get_all_preview_response(found: Result<UsernameSet, DbError>) -> (r: Result<Vec<String>, Status>)
    ensures
        match found {
            Ok(names) => r matches Ok(v) && crate::text::strings_view(v@) == names@,
            Err(_) => r == Err::<Vec<String>, Status>(Status::NotFound),
        },
{
    match found {
        Ok(user_from) => Ok(user_from.into_vec()),
        Err(_) => Err(Status::NotFound),
    }
}

/// The two accounts whose messages are listed, recipient first: their
/// identifiers, or a bad request where either is not 24 hex digits.
pub fn get_all_message_from_to_plan(first_id: String, second_id: String) -> (r: Result<
    (ObjectIdBytes, ObjectIdBytes),
    Status,
>)
    ensures
        match (object_id_from_hex(first_id@), object_id_from_hex(second_id@)) {
            (Some(to), Some(from)) => r matches Ok((t, f)) && t.bytes@ == to && f.bytes@ == from,
            _ => r == Err::<(ObjectIdBytes, ObjectIdBytes), Status>(Status::BadRequest),
        },
{
    match object_id_parse_str(first_id) {
        Ok(to_id) => match object_id_parse_str(second_id) {
            Ok(from_id) => Ok((to_id, from_id)),
            Err(_) => Err(Status::BadRequest),
        },
        Err(_) => Err(Status::BadRequest),
    }
}

/// The answer to listing the messages between two accounts: the messages, or
/// not found where the store failed.
pub fn get_all_message_from_to_response(found: Result<Vec<MessageTwoUsers>, DbError>) -> (r: Result<
    Vec<MessageTwoUsers>,
    Status,
>)
    ensures
        match found {
            Ok(m) => r == Ok::<Vec<MessageTwoUsers>, Status>(m),
            Err(_) => r == Err::<Vec<MessageTwoUsers>, Status>(Status::NotFound),
        },
{
    match found {
        Ok(messages) => Ok(messages),
        Err(_) => Err(Status::NotFound),
    }
}

} // verus!
