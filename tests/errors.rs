use source_data_proxy::errors::{
    classify_api_response, debug_quote, get_rusoto_error_message, BackendError, RusotoFailure,
    ServiceErrorKind,
};

#[test]
fn should_convert_head_object_no_such_key_to_404() {
    let error = RusotoFailure::Service { kind: ServiceErrorKind::NoSuchKey, message: "test-key".to_string() };
    let backend_error = BackendError::from_head_object_failure(error);
    assert!(matches!(backend_error, BackendError::ObjectNotFound(_)), "expected error to be ObjectNotFound");
    assert_eq!(backend_error.status_code(), 404, "expected status code to be 404");
    assert_eq!(backend_error.response_body(), "object not found: \"test-key\"");
}

#[test]
fn should_convert_list_objects_no_such_bucket_to_404() {
    let error = RusotoFailure::Service { kind: ServiceErrorKind::NoSuchBucket, message: "test-bucket".to_string() };
    let backend_error = BackendError::from_list_objects_failure(error);
    assert!(matches!(backend_error, BackendError::RepositoryNotFound), "expected error to be converted to RepositoryNotFound");
    assert_eq!(backend_error.status_code(), 404, "expected status code to be 404");
    assert_eq!(backend_error.response_body(), "repository not found");
}

#[test]
fn should_convert_put_object_unknown_error_to_502() {
    let error = RusotoFailure::Unknown {
        status: 500,
        status_line: "500 Internal Server Error".to_string(),
        body: String::new(),
    };
    let backend_error = BackendError::from_s3_failure("PutObject", error);
    assert!(matches!(backend_error, BackendError::S3Error(_)), "expected error to be converted to S3Error");
    assert_eq!(backend_error.status_code(), 502, "expected status code to be 502");
    assert_eq!(
        backend_error.response_body(),
        "Internal Server Error: s3 error: PutObject Unknown Error: status 500 Internal Server Error"
    );
}

#[test]
fn head_object_unknown_404_is_not_found() {
    let error = RusotoFailure::Unknown { status: 404, status_line: "404 Not Found".to_string(), body: "gone".to_string() };
    assert!(matches!(BackendError::from_head_object_failure(error), BackendError::ObjectNotFound(k) if k == "gone"));
    let error = RusotoFailure::HttpDispatch("timeout".to_string());
    assert_eq!(BackendError::from_head_object_failure(error).to_string(), "s3 error: HeadObject HttpDispatch Error: timeout");
}

#[test]
fn rusoto_messages_name_the_operation() {
    assert_eq!(get_rusoto_error_message("DeleteObject", &RusotoFailure::Blocking), "DeleteObject Blocking Error");
    assert_eq!(
        get_rusoto_error_message("UploadPart", &RusotoFailure::Credentials("no key".to_string())),
        "UploadPart Credentials Error: no key"
    );
    assert_eq!(
        get_rusoto_error_message("ListObjectsV2", &RusotoFailure::ParseError("bad".to_string())),
        "ListObjectsV2 Parse Error: bad"
    );
}

#[test]
fn should_convert_not_found_to_404() {
    let backend_error = BackendError::from_azure_failure(
        Some(404),
        Some("ResourceNotFound".to_string()),
        "Resource not found".to_string(),
    );
    assert!(matches!(backend_error, BackendError::ObjectNotFound(_)), "expected error to be converted to ObjectNotFound");
    assert_eq!(backend_error.status_code(), 404, "expected status code to be 404");
    assert_eq!(backend_error.response_body(), "object not found: \"ResourceNotFound\"");
}

#[test]
fn should_convert_other_errors_to_502() {
    let backend_error = BackendError::from_azure_failure(
        Some(500),
        Some("InternalError".to_string()),
        "Internal error".to_string(),
    );
    assert!(matches!(backend_error, BackendError::AzureError(_)), "expected error to be converted to AzureError");
    assert_eq!(backend_error.status_code(), 502, "expected status code to be 502");
    assert_eq!(backend_error.response_body(), "Internal Server Error: azure error: Internal error");
}

#[test]
fn should_handle_unauthorized_error() {
    let error = BackendError::UnauthorizedError;
    assert_eq!(error.status_code(), 401, "expected status code to be 401");
    assert_eq!(error.to_string(), "unauthorized", "expected error message to be 'unauthorized'");
    assert_eq!(error.response_body(), "unauthorized");
}

#[test]
fn should_handle_invalid_request_error() {
    let error = BackendError::InvalidRequest("bad input".to_string());
    assert_eq!(error.status_code(), 400, "expected status code to be 400");
    assert_eq!(error.to_string(), "invalid request", "expected error message to be 'invalid request'");
    assert_eq!(error.response_body(), "invalid request");
}

#[test]
fn should_handle_unsupported_auth_method() {
    let error = BackendError::UnsupportedAuthMethod("basic".to_string());
    assert_eq!(error.status_code(), 400, "expected status code to be 400");
    assert_eq!(error.to_string(), "unsupported auth method: basic", "expected error message to include auth method");
    assert_eq!(error.response_body(), "unsupported auth method: basic");
}

#[test]
fn should_handle_unsupported_operation() {
    let error = BackendError::UnsupportedOperation("delete".to_string());
    assert_eq!(error.status_code(), 400, "expected status code to be 400");
    assert_eq!(error.to_string(), "unsupported operation: delete", "expected error message to include operation");
    assert_eq!(error.response_body(), "unsupported operation: delete");
}

#[test]
fn should_convert_quick_xml_error() {
    let backend_error = BackendError::xml_parse_error("unexpected start of stream");
    assert!(matches!(backend_error, BackendError::XmlParseError(_)), "expected error to be converted to XmlParseError");
    assert_eq!(backend_error.status_code(), 500, "expected status code to be 500");
    assert_eq!(backend_error.to_string(), "xml parse error: failed to parse xml: unexpected start of stream");
}

#[test]
fn should_convert_serde_xml_error() {
    let backend_error = BackendError::xml_parse_error("invalid XML format");
    assert!(matches!(backend_error, BackendError::XmlParseError(_)), "expected error to be converted to XmlParseError");
    assert_eq!(backend_error.status_code(), 500, "expected status code to be 500");
}

#[test]
fn should_handle_api_server_error() {
    let error = BackendError::ApiServerError {
        url: "https://api.example.com".to_string(),
        status: 500,
        message: "Internal Server Error".to_string(),
    };
    assert_eq!(error.status_code(), 502, "expected status code to be 502");
    assert!(error.to_string().contains("api threw a server error"), "expected error message to mention server error");
    assert_eq!(
        error.to_string(),
        "api threw a server error (url https://api.example.com, status 500, message Internal Server Error)"
    );
}

#[test]
fn should_handle_api_client_error() {
    let error = BackendError::ApiClientError {
        url: "https://api.example.com".to_string(),
        status: 400,
        message: "Bad Request".to_string(),
    };
    assert_eq!(error.status_code(), 502, "expected status code to be 502");
    assert!(error.to_string().contains("api threw a client error"), "expected error message to mention client error");
}

#[test]
fn should_handle_json_parse_error() {
    let error = BackendError::JsonParseError { url: "https://api.example.com".to_string() };
    assert_eq!(error.status_code(), 500, "expected status code to be 500");
    assert!(error.to_string().contains("failed to parse JSON"), "expected error message to mention JSON parsing");
}

#[test]
fn should_handle_repository_not_found() {
    let error = BackendError::RepositoryNotFound;
    assert_eq!(error.status_code(), 404, "expected status code to be 404");
    assert_eq!(error.to_string(), "repository not found", "expected error message to be 'repository not found'");
}

#[test]
fn should_handle_repository_permissions_not_found() {
    let error = BackendError::RepositoryPermissionsNotFound;
    assert_eq!(error.status_code(), 502, "expected status code to be 502");
    assert_eq!(error.to_string(), "failed to fetch repository permissions", "expected error message to mention permissions");
}

#[test]
fn should_handle_source_repository_missing_primary_mirror() {
    let error = BackendError::SourceRepositoryMissingPrimaryMirror;
    assert_eq!(error.status_code(), 404, "expected status code to be 404");
    assert_eq!(error.to_string(), "source repository missing primary mirror", "expected error message to mention missing mirror");
}

#[test]
fn should_handle_data_connection_not_found() {
    let error = BackendError::DataConnectionNotFound;
    assert_eq!(error.status_code(), 404, "expected status code to be 404");
    assert_eq!(error.to_string(), "data connection not found", "expected error message to be 'data connection not found'");
}

#[test]
fn should_handle_unexpected_data_connection_provider() {
    let error = BackendError::UnexpectedDataConnectionProvider { provider: "unknown".to_string() };
    assert_eq!(error.status_code(), 500, "expected status code to be 500");
    assert!(error.to_string().contains("unexpected data connection provider"), "expected error message to mention unexpected provider");
}

#[test]
fn remaining_variants_map_as_the_table_says() {
    assert_eq!(BackendError::ApiKeyNotFound.status_code(), 404);
    assert_eq!(BackendError::ObjectNotFound("k".to_string()).status_code(), 404);
    assert_eq!(BackendError::S3Error("x".to_string()).status_code(), 502);
    assert_eq!(BackendError::UnexpectedApiError("x".to_string()).status_code(), 500);
    assert_eq!(BackendError::UnexpectedApiError("x".to_string()).response_body(), "Internal Server Error: unexpected API error: x");
    let e = BackendError::ReqwestError { url: None, message: "refused".to_string() };
    assert_eq!(e.status_code(), 502);
    assert_eq!(e.to_string(), "reqwest error (url unknown, message refused)");
}

#[test]
fn debug_quoting_escapes() {
    assert_eq!(debug_quote("a\"b\\c\n"), "\"a\\\"b\\\\c\\n\"");
    assert_eq!(debug_quote("plain"), format!("{:?}", "plain"));
}

#[test]
fn api_responses_are_classified_by_status() {
    assert!(classify_api_response(200, "u".to_string(), "b".to_string(), BackendError::RepositoryNotFound).is_ok());
    assert!(matches!(
        classify_api_response(404, "u".to_string(), "b".to_string(), BackendError::ApiKeyNotFound),
        Err(BackendError::ApiKeyNotFound)
    ));
    assert!(matches!(
        classify_api_response(503, "u".to_string(), "b".to_string(), BackendError::ApiKeyNotFound),
        Err(BackendError::ApiServerError { status: 503, .. })
    ));
    assert!(matches!(
        classify_api_response(403, "u".to_string(), "b".to_string(), BackendError::ApiKeyNotFound),
        Err(BackendError::ApiClientError { status: 403, .. })
    ));
}
