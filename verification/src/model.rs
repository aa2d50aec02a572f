//! The records kept in the document store.

use crate::object_id::ObjectIdBytes;
use vstd::prelude::*;

verus! {

/// An account as stored: its identifier, its name and the bcrypt hash of its password.
#[derive(Debug, Clone)]
pub struct User {
    pub _id: ObjectIdBytes,
    pub username: String,
    pub password: String,
}

/// A message as stored: its text, the identifiers of its recipient and sender,
/// and the time of day at which it was stored.
#[derive(Debug, Clone)]
pub struct Message {
    pub body: String,
    pub to: ObjectIdBytes,
    pub from: ObjectIdBytes,
    pub time: String,
}

} // verus!
