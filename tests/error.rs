use suika::error::HttpError;

#[test]
fn test_http_error_display() {
    let error = HttpError::BadRequest("Invalid request data".to_string());
    assert_eq!(error.to_string(), "Bad Request: Invalid request data");

    let error = HttpError::Unauthorized("Authentication required".to_string());
    assert_eq!(error.to_string(), "Unauthorized: Authentication required");

    let error = HttpError::Forbidden("Access denied".to_string());
    assert_eq!(error.to_string(), "Forbidden: Access denied");

    let error = HttpError::NotFound("Resource not found".to_string());
    assert_eq!(error.to_string(), "Not Found: Resource not found");

    let error = HttpError::InternalServerError("Internal server error".to_string());
    assert_eq!(error.to_string(), "Internal Server Error: Internal server error");
}

#[test]
fn test_http_error_to_tuple() {
    let error = HttpError::BadRequest("Invalid request data".to_string());
    let (code, msg) = error.to_tuple();
    assert_eq!(code, 400);
    assert_eq!(msg, "Invalid request data");

    let error = HttpError::Unauthorized("Authentication required".to_string());
    let (code, msg) = error.to_tuple();
    assert_eq!(code, 401);
    assert_eq!(msg, "Authentication required");

    let error = HttpError::Forbidden("Access denied".to_string());
    let (code, msg) = error.to_tuple();
    assert_eq!(code, 403);
    assert_eq!(msg, "Access denied");

    let error = HttpError::NotFound("Resource not found".to_string());
    let (code, msg) = error.to_tuple();
    assert_eq!(code, 404);
    assert_eq!(msg, "Resource not found");

    let error = HttpError::InternalServerError("Internal server error".to_string());
    let (code, msg) = error.to_tuple();
    assert_eq!(code, 500);
    assert_eq!(msg, "Internal server error");
}

#[test]
fn test_display() {
    let bad_request = HttpError::BadRequest("Invalid data".to_string());
    let unauthorized = HttpError::Unauthorized("No token".to_string());
    let forbidden = HttpError::Forbidden("Access denied".to_string());
    let not_found = HttpError::NotFound("Resource missing".to_string());
    let internal_server_error = HttpError::InternalServerError("Server malfunction".to_string());

    assert_eq!(bad_request.to_string(), "Bad Request: Invalid data");
    assert_eq!(unauthorized.to_string(), "Unauthorized: No token");
    assert_eq!(forbidden.to_string(), "Forbidden: Access denied");
    assert_eq!(not_found.to_string(), "Not Found: Resource missing");
    assert_eq!(
        internal_server_error.to_string(),
        "Internal Server Error: Server malfunction"
    );
}

#[test]
fn test_to_tuple() {
    let bad_request = HttpError::BadRequest("Invalid data".to_string());
    let unauthorized = HttpError::Unauthorized("No token".to_string());
    let forbidden = HttpError::Forbidden("Access denied".to_string());
    let not_found = HttpError::NotFound("Resource missing".to_string());
    let internal_server_error = HttpError::InternalServerError("Server malfunction".to_string());

    assert_eq!(bad_request.to_tuple(), (400, "Invalid data"));
    assert_eq!(unauthorized.to_tuple(), (401, "No token"));
    assert_eq!(forbidden.to_tuple(), (403, "Access denied"));
    assert_eq!(not_found.to_tuple(), (404, "Resource missing"));
    assert_eq!(internal_server_error.to_tuple(), (500, "Server malfunction"));
}

#[test]
fn empty_message_keeps_separator() {
    assert_eq!(HttpError::NotFound(String::new()).to_string(), "Not Found: ");
    assert_eq!(HttpError::NotFound(String::new()).to_tuple(), (404, ""));
}
