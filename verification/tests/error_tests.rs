use fer_api::error::ApiError;

#[test]
fn status_codes() {
    assert_eq!(ApiError::NotValid.status_code(), 400);
    assert_eq!(ApiError::InvalidToken.status_code(), 400);
    assert_eq!(ApiError::MissingCredentials.status_code(), 400);
    assert_eq!(ApiError::Conflict.status_code(), 400);
    assert_eq!(ApiError::WrongCredentials.status_code(), 401);
    assert_eq!(ApiError::AdminRequired.status_code(), 403);
    assert_eq!(ApiError::Forbidden.status_code(), 403);
    assert_eq!(ApiError::NotFound.status_code(), 404);
    assert_eq!(ApiError::InternalServerError.status_code(), 500);
    assert_eq!(ApiError::TokenCreation.status_code(), 500);
    assert_eq!(ApiError::ConfigurationError.status_code(), 500);
}

#[test]
fn messages() {
    assert_eq!(ApiError::NotValid.message().as_str(), "Bad request");
    assert_eq!(ApiError::NotFound.message().as_str(), "Not found");
    assert_eq!(ApiError::AdminRequired.message().as_str(), "Forbidden");
    assert_eq!(ApiError::Forbidden.message().as_str(), "Forbidden");
    assert_eq!(ApiError::WrongCredentials.message().as_str(), "Wrong credentials");
    assert_eq!(ApiError::InternalServerError.message().as_str(), "Internal server error");
}

#[test]
fn response_parts_pairs() {
    let (status, message) = ApiError::AdminRequired.response_parts();
    assert_eq!(status, 403);
    assert_eq!(message.as_str(), "Forbidden");
    let (status, message) = ApiError::NotValid.response_parts();
    assert_eq!(status, 400);
    assert_eq!(message.as_str(), "Bad request");
}
