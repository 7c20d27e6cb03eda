//! The errors of logging in, listing folders and decoding messages.

use vstd::prelude::*;

verus! {

/// Why a login handshake did not produce a session.
#[derive(Debug, Clone)]
pub enum AuthError {
    /// A request of the handshake did not reach the portal.
    Connectivity,
    /// The portal answered the credentials with a status other than success.
    InvalidCredentials,
    /// The grant endpoint reported an error; holds the body it sent.
    GrantDenied(String),
}

/// Why listing a folder or decoding a message failed.
#[derive(Debug, Clone)]
pub enum ApiError {
    /// A request did not reach the portal.
    Connectivity,
    /// A response lacks a required field, or holds it in another shape; names the field.
    Deserialization(String),
    /// A message id is not a decimal integer; holds the id's text.
    Parse(String),
    /// Message content is not base64, or does not decode to UTF-8 text.
    Decoding,
}

} // verus!
