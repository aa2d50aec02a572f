//! Request handling logic of a small chat server: credentials carried in
//! `Authorization` headers, registration and login decisions, message
//! validation, and the records exchanged with the document store.

pub mod text;
pub mod codec;
pub mod database;
pub mod object_id;
pub mod model;
pub mod password;
pub mod routes;
