//! The domain failure taxonomy, its canonical rendered messages, and the
//! HTTP error envelope that carries a failure to the wire.
use vstd::prelude::*;
use vstd::string::StringExecFns;

use crate::text::{dec_rep, usize_to_decimal};

verus! {

/// The JSON error body: a status discriminator plus a single message.
#[derive(Debug)]
pub struct ErrorResponse {
    pub status: String,
    pub message: String,
}

/// The closed set of domain failure kinds. These are the only vocabulary by
/// which collaborators report failures to the HTTP boundary.
#[derive(Debug, PartialEq, Eq, Structural)]
pub enum ErrorMessage {
    EmptyPassword,
    ExceededMaxPasswordLength(usize),
    InvalidHashFormat,
    HashingError,
    InvalidToken,
    ServerError,
    WrongCredentials,
    EmailExist,
    UserNoLongerExist,
    TokenNotProvided,
    PermissionDenied,
    UserNotAuthenticated,
}

/// The canonical rendered message of each failure kind: one stable text per
/// kind, with the password-length limit interpolated in decimal.
pub open spec fn message_text(m: ErrorMessage) -> Seq<char> {
    match m {
        ErrorMessage::EmptyPassword => "Password cannot be empty"@,
        ErrorMessage::ExceededMaxPasswordLength(limit) => "Password exceeds maximum length of "@
            + dec_rep(limit as nat) + " characters"@,
        ErrorMessage::InvalidHashFormat => "Invalid hash format"@,
        ErrorMessage::HashingError => "Error hashing password"@,
        ErrorMessage::InvalidToken => "Invalid token"@,
        ErrorMessage::ServerError => "Internal server error"@,
        ErrorMessage::WrongCredentials => "Wrong email or password"@,
        ErrorMessage::EmailExist => "Email already exists"@,
        ErrorMessage::UserNoLongerExist => "User no longer exists"@,
        ErrorMessage::TokenNotProvided => "Token not provided"@,
        ErrorMessage::PermissionDenied => "Permission denied"@,
        ErrorMessage::UserNotAuthenticated => "User not authenticated"@,
    }
}

impl ErrorMessage {
    /// Renders this failure kind to its canonical message.
    pub fn to_str(&self) -> (r: String)
        ensures
            r@ == message_text(*self),
    {
        match self {
            ErrorMessage::EmptyPassword => "Password cannot be empty".to_owned(),
            ErrorMessage::ExceededMaxPasswordLength(limit) => {
                let mut s = "Password exceeds maximum length of ".to_owned();
                let digits = usize_to_decimal(*limit);
                s.append(digits.as_str());
                s.append(" characters");
                proof {
                    assert(s@ =~= message_text(*self));
                }
                s
            },
            ErrorMessage::InvalidHashFormat => "Invalid hash format".to_owned(),
            ErrorMessage::HashingError => "Error hashing password".to_owned(),
            ErrorMessage::InvalidToken => "Invalid token".to_owned(),
            ErrorMessage::ServerError => "Internal server error".to_owned(),
            ErrorMessage::WrongCredentials => "Wrong email or password".to_owned(),
            ErrorMessage::EmailExist => "Email already exists".to_owned(),
            ErrorMessage::UserNoLongerExist => "User no longer exists".to_owned(),
            ErrorMessage::TokenNotProvided => "Token not provided".to_owned(),
            ErrorMessage::PermissionDenied => "Permission denied".to_owned(),
            ErrorMessage::UserNotAuthenticated => "User not authenticated".to_owned(),
        }
    }
}

/// The status codes the envelope may carry: Bad Request, Unauthorized,
/// Forbidden, Conflict, Internal Server Error. Forbidden is admitted because
/// the permission-denied kind maps to 401 or 403 as a deployment policy.
pub open spec fn is_supported_status(code: u16) -> bool {
    code == 400 || code == 401 || code == 403 || code == 409 || code == 500
}

/// The HTTP error envelope: the only path by which an internal failure
/// becomes a wire response. The status is the numeric HTTP status code.
#[derive(Debug, Clone)]
pub struct HttpError {
    pub status: u16,
    pub message: String,
}

impl HttpError {
    /// Envelope invariant: the status is one of the supported codes.
    pub open spec fn wf(self) -> bool {
        is_supported_status(self.status)
    }

    /// An envelope with an explicitly chosen status code.
    pub fn new(status: u16, message: String) -> (r: HttpError)
        requires
            is_supported_status(status),
        ensures
            r.status == status,
            r.message@ == message@,
            r.wf(),
    {
        HttpError { status, message }
    }

    /// A 500 Internal Server Error envelope.
    pub fn server_error(message: String) -> (r: HttpError)
        ensures
            r.status == 500,
            r.message@ == message@,
            r.wf(),
    {
        HttpError { status: 500, message }
    }

    /// A 400 Bad Request envelope.
    pub fn bad_request(message: String) -> (r: HttpError)
        ensures
            r.status == 400,
            r.message@ == message@,
            r.wf(),
    {
        HttpError { status: 400, message }
    }

    /// A 409 Conflict envelope, for uniqueness violations such as an
    /// already-registered email.
    pub fn unique_constraint_violation(message: String) -> (r: HttpError)
        ensures
            r.status == 409,
            r.message@ == message@,
            r.wf(),
    {
        HttpError { status: 409, message }
    }

    /// A 401 Unauthorized envelope.
    pub fn unauthorized(message: String) -> (r: HttpError)
        ensures
            r.status == 401,
            r.message@ == message@,
            r.wf(),
    {
        HttpError { status: 401, message }
    }

    /// The JSON error body of this envelope: status discriminator "error"
    /// and the envelope's message, nothing else.
    pub fn to_error_response(self) -> (r: ErrorResponse)
        ensures
            r.status@ == "error"@,
            r.message@ == self.message@,
    {
        ErrorResponse { status: "error".to_owned(), message: self.message }
    }
}

} // verus!
