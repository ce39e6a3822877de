use vstd::prelude::*;

verus! {

/// What can go wrong while authenticating a request or serving it.
#[derive(Debug, Clone, Copy, PartialEq, Eq, Structural)]
pub enum AuthError {
    WrongCredentials,
    Unauthorized,
    DatabaseError,
    TokenExpired,
    TokenInvalid,
    MissingAuthHeader,
    InternalServerError,
}

/// The HTTP status that each error is mapped to.
pub open spec fn error_status(e: AuthError) -> u16 {
    match e {
        AuthError::WrongCredentials => 401,
        AuthError::Unauthorized => 401,
        AuthError::DatabaseError => 500,
        AuthError::TokenExpired => 401,
        AuthError::TokenInvalid => 401,
        AuthError::MissingAuthHeader => 400,
        AuthError::InternalServerError => 500,
    }
}

/// The human-readable text that each error is reported with.
pub open spec fn error_message(e: AuthError) -> Seq<char> {
    match e {
        AuthError::WrongCredentials => "Wrong credentials"@,
        AuthError::Unauthorized => "Unauthorized"@,
        AuthError::DatabaseError => "Database error"@,
        AuthError::TokenExpired => "Token expired"@,
        AuthError::TokenInvalid => "Token invalid"@,
        AuthError::MissingAuthHeader => "Missing authorization header"@,
        AuthError::InternalServerError => "Internal server error"@,
    }
}

/// The status of a JSON reply built without an explicit status: 200 OK.
pub const JSON_REPLY_STATUS: u16 = 200;

/// The body of an error reply: `{"error": <message>}`.
#[derive(Debug, Clone, PartialEq, Eq)]
pub struct ErrorResponse {
    pub error: String,
}

/// An error reply as it is sent: its status and its JSON body.
#[derive(Debug, Clone, PartialEq, Eq)]
pub struct ErrorReply {
    pub status: u16,
    pub body: ErrorResponse,
}

impl AuthError {
    /// The status and the message that this error maps to.
    pub fn status_and_message(&self) -> (r: (u16, &'static str))
        ensures
            r.0 == error_status(*self),
            r.1@ == error_message(*self),
    {
        match self {
            AuthError::WrongCredentials => (401, "Wrong credentials"),
            AuthError::Unauthorized => (401, "Unauthorized"),
            AuthError::DatabaseError => (500, "Database error"),
            AuthError::TokenExpired => (401, "Token expired"),
            AuthError::TokenInvalid => (401, "Token invalid"),
            AuthError::MissingAuthHeader => (400, "Missing authorization header"),
            AuthError::InternalServerError => (500, "Internal server error"),
        }
    }

    /// The reply sent for this error. Its body carries the error's message.
    /// The reply is a plain JSON reply, so its status is that of any JSON
    /// reply (200); the status that `status_and_message` maps the error to is
    /// not attached to it.
    pub fn into_response(self) -> (r: ErrorReply)
        ensures
            r.status == JSON_REPLY_STATUS,
            r.body.error@ == error_message(self),
    {
        let (_status, message) = self.status_and_message();
        ErrorReply { status: JSON_REPLY_STATUS, body: ErrorResponse { error: String::from_str(message) } }
    }
}

} // verus!
