//! Exports the messages of a LIBRUS Synergia account: the login handshake, folder
//! listings, message decoding, and the registry that files large recipient sets once.

pub mod authentication;
pub mod client;
pub mod content;
pub mod decimal;
pub mod error;
pub mod folders;
pub mod json;
pub mod messages;
pub mod text;
pub mod users;
