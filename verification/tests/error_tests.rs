use user_auth_core::error::{ErrorMessage, HttpError};

#[test]
fn each_kind_renders_its_canonical_message() {
    assert_eq!(ErrorMessage::EmptyPassword.to_str(), "Password cannot be empty");
    assert_eq!(ErrorMessage::InvalidHashFormat.to_str(), "Invalid hash format");
    assert_eq!(ErrorMessage::HashingError.to_str(), "Error hashing password");
    assert_eq!(ErrorMessage::InvalidToken.to_str(), "Invalid token");
    assert_eq!(ErrorMessage::ServerError.to_str(), "Internal server error");
    assert_eq!(ErrorMessage::WrongCredentials.to_str(), "Wrong email or password");
    assert_eq!(ErrorMessage::EmailExist.to_str(), "Email already exists");
    assert_eq!(ErrorMessage::UserNoLongerExist.to_str(), "User no longer exists");
    assert_eq!(ErrorMessage::TokenNotProvided.to_str(), "Token not provided");
    assert_eq!(ErrorMessage::PermissionDenied.to_str(), "Permission denied");
    assert_eq!(ErrorMessage::UserNotAuthenticated.to_str(), "User not authenticated");
}

#[test]
fn password_length_message_interpolates_limit_exactly() {
    assert_eq!(
        ErrorMessage::ExceededMaxPasswordLength(72).to_str(),
        "Password exceeds maximum length of 72 characters"
    );
}

#[test]
fn password_length_message_handles_other_limits() {
    assert_eq!(
        ErrorMessage::ExceededMaxPasswordLength(0).to_str(),
        "Password exceeds maximum length of 0 characters"
    );
    assert_eq!(
        ErrorMessage::ExceededMaxPasswordLength(128).to_str(),
        "Password exceeds maximum length of 128 characters"
    );
}

#[test]
fn rendering_is_stable() {
    let a = ErrorMessage::WrongCredentials.to_str();
    let b = ErrorMessage::WrongCredentials.to_str();
    assert_eq!(a, b);
}

#[test]
fn constructors_pick_the_canonical_status() {
    assert_eq!(HttpError::server_error("x".to_string()).status, 500);
    assert_eq!(HttpError::bad_request("x".to_string()).status, 400);
    assert_eq!(HttpError::unique_constraint_violation("x".to_string()).status, 409);
    assert_eq!(HttpError::unauthorized("x".to_string()).status, 401);
}

#[test]
fn new_takes_an_explicit_status() {
    let e = HttpError::new(403, "Permission denied".to_string());
    assert_eq!(e.status, 403);
    assert_eq!(e.message, "Permission denied");
}

#[test]
fn email_exist_converts_to_conflict() {
    let e = HttpError::unique_constraint_violation(ErrorMessage::EmailExist.to_str());
    assert_eq!(e.status, 409);
    assert_eq!(e.message, "Email already exists");
}

#[test]
fn error_body_carries_discriminator_and_message() {
    let e = HttpError::bad_request("Name is required".to_string());
    let body = e.to_error_response();
    assert_eq!(body.status, "error");
    assert_eq!(body.message, "Name is required");
}
