use user_backend::errors::{AppError, FieldError, HttpError};

#[test]
fn http_error_new_keeps_message() {
    let e = HttpError::new(String::from("boom"));
    assert_eq!(e.error, "boom");
    assert_eq!(e.to_json(), "{\"error\":\"boom\"}");
}

#[test]
fn statuses_follow_the_taxonomy() {
    assert_eq!(AppError::NotFound(String::from("m")).into_response().0, 404);
    assert_eq!(AppError::BadRequest(String::from("m")).into_response().0, 400);
    assert_eq!(AppError::Unauthorized.into_response().0, 401);
    assert_eq!(AppError::Forbidden.into_response().0, 403);
    assert_eq!(AppError::InternalServerError.into_response().0, 500);
    assert_eq!(AppError::InternalServerErrorWithContext(String::from("m")).into_response().0, 500);
    assert_eq!(AppError::Conflict(String::from("m")).into_response().0, 409);
    assert_eq!(AppError::PreconditionFailed(String::from("m")).into_response().0, 412);
    assert_eq!(AppError::MalformedRequest(String::from("m")).into_response().0, 400);
    assert_eq!(AppError::ValidationError(Vec::new()).into_response().0, 400);
    assert_eq!(AppError::StoreError(String::from("m")).into_response().0, 500);
    assert_eq!(AppError::InvalidIdentifier.into_response().0, 500);
}

#[test]
fn fixed_messages_are_used() {
    let (_, body) = AppError::Unauthorized.into_response();
    assert_eq!(body, "{\"error\":\"authentication is required to access this resource\"}");
    let (_, body) = AppError::Forbidden.into_response();
    assert_eq!(body, "{\"error\":\"user does not have privilege to access this resource\"}");
    let (_, body) = AppError::InternalServerError.into_response();
    assert_eq!(body, "{\"error\":\"unexpected error has occurred\"}");
    let (_, body) = AppError::StoreError(String::from("connection refused")).into_response();
    assert_eq!(body, "{\"error\":\"unexpected error has occurred\"}");
    let (_, body) = AppError::InvalidIdentifier.into_response();
    assert_eq!(body, "{\"error\":\"unexpected error has occurred\"}");
}

#[test]
fn own_messages_are_carried() {
    let (_, body) = AppError::NotFound(String::from("no such user")).into_response();
    assert_eq!(body, "{\"error\":\"no such user\"}");
    let (_, body) = AppError::MalformedRequest(String::from("expected value at line 1")).into_response();
    assert_eq!(body, "{\"error\":\"expected value at line 1\"}");
}

#[test]
fn message_content_is_escaped() {
    let (_, body) = AppError::BadRequest(String::from("a \"quoted\" \\ back\nslash")).into_response();
    assert_eq!(body, "{\"error\":\"a \\\"quoted\\\" \\\\ back\\nslash\"}");
    let (_, body) = AppError::BadRequest(String::from("ctrl:\u{1}")).into_response();
    assert_eq!(body, "{\"error\":\"ctrl:\\u0001\"}");
}

#[test]
fn validation_body_lists_every_field() {
    let entries = vec![
        FieldError {
            field: String::from("name"),
            messages: vec![String::from("name is required")],
        },
        FieldError {
            field: String::from("email"),
            messages: vec![String::from("min value is 1"), String::from("email is invalid")],
        },
    ];
    let (status, body) = AppError::ValidationError(entries).into_response();
    assert_eq!(status, 400);
    assert_eq!(
        body,
        "{\"errors\":{\"name\":[\"name is required\"],\"email\":[\"min value is 1\",\"email is invalid\"]}}"
    );
}
