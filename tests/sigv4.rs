use source_data_proxy::canonical::{
    canonical_header_block, canonical_query_from_pairs, create_canonical_request,
    get_canonical_headers, get_canonical_query_string, get_query_params, get_signed_headers,
    hash_payload,
};
use source_data_proxy::encoding::{canonical_path, uri_encode};
use source_data_proxy::errors::BackendError;
use source_data_proxy::model::APIKey;
use source_data_proxy::sigv4::{
    calculate_signature, complete_identity, create_string_to_sign, credential_scope,
    prepare_identity, AuthFailure,
};

fn headers(pairs: &[(&str, &str)]) -> Vec<(String, String)> {
    pairs.iter().map(|(k, v)| (k.to_string(), v.to_string())).collect()
}

fn test_key() -> APIKey {
    APIKey {
        access_key_id: "test-key".to_string(),
        secret_access_key: "test-secret".to_string(),
    }
}

const SIGNED_GET_AUTH: &str = "AWS4-HMAC-SHA256 Credential=test-key/20240315/us-east-1/s3/aws4_request, SignedHeaders=host;x-amz-content-sha256;x-amz-date, Signature=98bc8e228081746b0daafb30822b2b86a0fe66ae4d6625e9508cbd5c7a74a99e";

fn signed_get_headers(auth: &str) -> Vec<(String, String)> {
    headers(&[
        ("host", "test.com"),
        ("x-amz-content-sha256", "UNSIGNED-PAYLOAD"),
        ("x-amz-date", "20240315T000000Z"),
        ("authorization", auth),
    ])
}

#[test]
fn test_load_identity_missing_auth_header() {
    let result = prepare_identity("GET", "/test", &Vec::new(), "", &[]);
    assert!(result.is_err());
    assert_eq!(result.unwrap_err().message(), "No Authorization header found");
}

#[test]
fn test_load_identity_invalid_signature_method() {
    let h = headers(&[("authorization", "INVALID Credential=test-key/20240315/us-east-1/s3, SignedHeaders=host;x-amz-content-sha256;x-amz-date, Signature=test-signature")]);
    let result = prepare_identity("GET", "/test", &h, "", &[]);
    assert!(result.is_err());
    assert_eq!(result.unwrap_err().message(), "Invalid Signature Algorithm");
}

#[test]
fn test_load_identity_missing_content_hash() {
    let h = headers(&[("authorization", "AWS4-HMAC-SHA256 Credential=test-key/20240315/us-east-1/s3, SignedHeaders=host;x-amz-content-sha256;x-amz-date, Signature=test-signature")]);
    let result = prepare_identity("GET", "/test", &h, "", &[]);
    assert!(result.is_err());
    assert_eq!(result.unwrap_err().message(), "No x-amz-content-sha256 header found");
}

#[test]
fn test_load_identity_missing_date() {
    let h = headers(&[
        ("authorization", "AWS4-HMAC-SHA256 Credential=test-key/20240315/us-east-1/s3, SignedHeaders=host;x-amz-content-sha256;x-amz-date, Signature=test-signature"),
        ("x-amz-content-sha256", "test-hash"),
    ]);
    let result = prepare_identity("GET", "/test", &h, "", &[]);
    assert!(result.is_err());
    assert_eq!(result.unwrap_err().message(), "No x-amz-date header found");
}

#[test]
fn test_load_identity_success() {
    let h = signed_get_headers(SIGNED_GET_AUTH);
    let pending = prepare_identity("GET", "/test", &h, "", &[]).unwrap();
    assert_eq!(pending.access_key_id, "test-key");
    let result = complete_identity(&pending, Ok(test_key()));
    assert!(result.is_ok());
    assert_eq!(result.unwrap().access_key_id, "test-key");
}

#[test]
fn mutated_header_falls_back_to_anonymous() {
    let mut h = signed_get_headers(SIGNED_GET_AUTH);
    h[0].1 = "test.con".to_string();
    let pending = prepare_identity("GET", "/test", &h, "", &[]).unwrap();
    let result = complete_identity(&pending, Ok(test_key()));
    assert!(matches!(result, Err(AuthFailure::SignatureMismatch)));
    assert_eq!(result.unwrap_err().message(), "Signature mismatch");
}

#[test]
fn wrong_secret_is_a_mismatch() {
    let h = signed_get_headers(SIGNED_GET_AUTH);
    let pending = prepare_identity("GET", "/test", &h, "", &[]).unwrap();
    let key = APIKey { access_key_id: "test-key".to_string(), secret_access_key: "other".to_string() };
    assert!(matches!(complete_identity(&pending, Ok(key)), Err(AuthFailure::SignatureMismatch)));
}

#[test]
fn unknown_key_is_anonymous_with_the_lookup_text() {
    let h = signed_get_headers(SIGNED_GET_AUTH);
    let pending = prepare_identity("GET", "/test", &h, "", &[]).unwrap();
    let result = complete_identity(&pending, Err(BackendError::ApiKeyNotFound));
    assert_eq!(result.unwrap_err().message(), "api key not found");
}

#[test]
fn signed_request_with_encoded_path_and_query_verifies() {
    let auth = "AWS4-HMAC-SHA256 Credential=test-key/20240315/us-east-1/s3/aws4_request, SignedHeaders=host;x-amz-content-sha256;x-amz-date, Signature=fd59e6b0aef2a3e28051807b2a822802baf11982bd94164dcf31f50f8e622ac8";
    let h = signed_get_headers(auth);
    let pending = prepare_identity(
        "GET",
        "/alice/photos/a%20b.jpg",
        &h,
        "list-type=2&prefix=photos/2024/",
        &[],
    )
    .unwrap();
    assert!(complete_identity(&pending, Ok(test_key())).is_ok());
}

#[test]
fn malformed_authorization_is_rejected_without_panic() {
    let h = headers(&[("authorization", "AWS4-HMAC-SHA256 Credential=test-key")]);
    let result = prepare_identity("GET", "/test", &h, "", &[]);
    assert!(matches!(result, Err(AuthFailure::MalformedAuthorization)));
    let h = headers(&[("authorization", "AWS4-HMAC-SHA256 Credential=k/d, SignedHeaders=host, Signature=x")]);
    assert!(matches!(prepare_identity("GET", "/test", &h, "", &[]), Err(AuthFailure::MalformedAuthorization)));
}

#[test]
fn undecodable_path_is_rejected() {
    let h = signed_get_headers(SIGNED_GET_AUTH);
    let result = prepare_identity("GET", "/a%FF", &h, "", &[]);
    assert!(matches!(result, Err(AuthFailure::InvalidPath)));
}

#[test]
fn aws_reference_vector_signature() {
    let creq = "GET\n/\nAction=ListUsers&Version=2010-05-08\ncontent-type:application/x-www-form-urlencoded; charset=utf-8\nhost:iam.amazonaws.com\nx-amz-date:20150830T123600Z\n\ncontent-type;host;x-amz-date\ne3b0c44298fc1c149afbf4c8996fb92427ae41e4649b934ca495991b7852b855";
    let scope = credential_scope("20150830", "us-east-1", "iam");
    assert_eq!(scope, "20150830/us-east-1/iam/aws4_request");
    let sts = create_string_to_sign(creq, "20150830T123600Z", &scope);
    assert_eq!(
        sts,
        "AWS4-HMAC-SHA256\n20150830T123600Z\n20150830/us-east-1/iam/aws4_request\nf536975d06c0309214f805bb90ccff089219ecd68b2577efef23edd43b7e1a59"
    );
    let sig = calculate_signature(
        "wJalrXUtnFEMI/K7MDENG+bPxRfiCYEXAMPLEKEY",
        "20150830",
        "us-east-1",
        "iam",
        &sts,
    );
    assert_eq!(sig, "5d672d79c15b13162d9279b0855cfba6789a8edb4c82c400e06b5924a6f2b5d7");
}

#[test]
fn aws_reference_vector_canonical_request() {
    let h = headers(&[
        ("Host", "iam.amazonaws.com"),
        ("Content-Type", "application/x-www-form-urlencoded; charset=utf-8"),
        ("X-Amz-Date", "20150830T123600Z"),
    ]);
    let signed = vec!["content-type".to_string(), "host".to_string(), "x-amz-date".to_string()];
    let creq = create_canonical_request(
        "GET",
        "/",
        &h,
        &signed,
        "Action=ListUsers&Version=2010-05-08",
        b"",
        "e3b0c44298fc1c149afbf4c8996fb92427ae41e4649b934ca495991b7852b855",
    )
    .unwrap();
    assert_eq!(creq, "GET\n/\nAction=ListUsers&Version=2010-05-08\ncontent-type:application/x-www-form-urlencoded; charset=utf-8\nhost:iam.amazonaws.com\nx-amz-date:20150830T123600Z\n\ncontent-type;host;x-amz-date\ne3b0c44298fc1c149afbf4c8996fb92427ae41e4649b934ca495991b7852b855");
}

#[test]
fn uri_encode_keeps_unreserved_and_escapes_the_rest() {
    assert_eq!(uri_encode("a-b_c.d~e/f", false), "a-b_c.d~e/f");
    assert_eq!(uri_encode("a-b_c.d~e/f", true), "a-b_c.d~e%2Ff");
    assert_eq!(uri_encode("a b+c", true), "a%20b%2Bc");
    assert_eq!(uri_encode("é", true), "%C3%A9");
    assert_eq!(uri_encode("", true), "");
}

#[test]
fn path_without_percent_encodes_as_if_not_decoded() {
    for p in ["/alice/photos/a b.jpg", "/x/y~z/é/ü", "", "/+/&/="] {
        assert_eq!(canonical_path(p).unwrap(), uri_encode(p, false));
    }
}

#[test]
fn canonical_path_decodes_before_encoding() {
    assert_eq!(canonical_path("/a%20b").unwrap(), "/a%20b");
    assert_eq!(canonical_path("/a%2Fb").unwrap(), "/a/b");
    assert_eq!(canonical_path("/100%").unwrap(), "/100%25");
    assert!(canonical_path("/%FF").is_none());
}

#[test]
fn canonical_query_sorts_by_encoded_name() {
    assert_eq!(get_canonical_query_string(""), "");
    assert_eq!(get_canonical_query_string("b=2&a=1"), "a=1&b=2");
    assert_eq!(get_canonical_query_string("prefix=photos/2024/&list-type=2"), "list-type=2&prefix=photos%2F2024%2F");
    assert_eq!(get_canonical_query_string("uploads"), "uploads=");
    assert_eq!(get_canonical_query_string("k=a+b"), "k=a%20b");
    assert_eq!(get_canonical_query_string("x=2&x=1"), "x=2&x=1");
}

#[test]
fn query_params_are_decoded_pairs() {
    let p = get_query_params("a=1&b=x%20y&c");
    assert_eq!(
        p,
        vec![
            ("a".to_string(), "1".to_string()),
            ("b".to_string(), "x y".to_string()),
            ("c".to_string(), "".to_string())
        ]
    );
}

#[test]
fn canonical_headers_merge_and_sort() {
    let h = headers(&[
        ("X-B", "  two "),
        ("x-a", "one"),
        ("x-b", "three"),
        ("x-c", "unsigned"),
    ]);
    let signed = vec!["x-a".to_string(), "x-b".to_string()];
    assert_eq!(get_canonical_headers(&h, &signed), "x-a:one\nx-b:two,three\n");
    assert_eq!(get_signed_headers(&vec!["Host".to_string(), "X-Amz-Date".to_string()]), "host;x-amz-date");
}

#[test]
fn payload_hash_is_hex_sha256() {
    assert_eq!(hash_payload(b""), "e3b0c44298fc1c149afbf4c8996fb92427ae41e4649b934ca495991b7852b855");
    assert_eq!(hash_payload(b"abc"), "ba7816bf8f01cfea414140de5dae2223b00361a396177a9cb410ff61f20015ad");
}

#[test]
fn hmac_chain_matches_reference() {
    let sig = calculate_signature("secret", "20240101", "r", "s", "message");
    assert_eq!(sig.len(), 64);
    assert_ne!(sig, "message");
    assert_ne!(sig, calculate_signature("secret2", "20240101", "r", "s", "message"));
}

#[test]
fn pairs_are_encoded_sorted_and_joined() {
    let pairs = vec![
        ("b".to_string(), "x y".to_string()),
        ("a/z".to_string(), "1".to_string()),
        ("a".to_string(), "".to_string()),
    ];
    assert_eq!(canonical_query_from_pairs(&pairs), "a=&a%2Fz=1&b=x%20y");
    assert_eq!(canonical_query_from_pairs(&Vec::new()), "");
}

#[test]
fn header_block_merges_equal_names() {
    let entries = vec![
        ("x-b".to_string(), "2".to_string()),
        ("host".to_string(), "h".to_string()),
        ("x-b".to_string(), "1".to_string()),
    ];
    assert_eq!(canonical_header_block(&entries), "host:h\nx-b:2,1\n");
    assert_eq!(canonical_header_block(&Vec::new()), "");
}
