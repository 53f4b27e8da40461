use source_data_proxy::backend::{
    parse_part_number, parse_s3_uri, AzureRepository, Backend,
    CredentialSource, S3Repository,
};
use source_data_proxy::errors::BackendError;
use source_data_proxy::listing::{AzureListPage, AzureListedItem, S3ListPage, S3ListedObject};
use source_data_proxy::model::{
    APIKey, DataConnection, DataConnectionAuthentication, DataConnectionDetails, ProductDataMode,
    ProductVisibility, RepositoryPermission, SourceProduct, SourceProductList,
    SourceProductMetadata, SourceProductMirror, SourceProductMirrorConfig, StorageType,
    UserIdentity,
};
use source_data_proxy::resolve::{
    account_from_products, api_key_step, authorization_outcome, build_backend, has_permission,
    permissions_cache_key, primary_connection_id, product_url, repository_cache_key, ApiKeyStep,
    CACHE_TTL_SECS,
};

fn mirror(prefix: &str) -> SourceProductMirror {
    SourceProductMirror {
        storage_type: StorageType::S3,
        connection_id: "conn-1".to_string(),
        prefix: prefix.to_string(),
        config: SourceProductMirrorConfig { region: None, bucket: None, container: None, endpoint: None },
        is_primary: true,
    }
}

fn product(primary: &str, mirrors: Vec<(String, SourceProductMirror)>) -> SourceProduct {
    SourceProduct {
        product_id: "photos".to_string(),
        account_id: "alice".to_string(),
        title: "t".to_string(),
        description: "d".to_string(),
        created_at: "c".to_string(),
        updated_at: "u".to_string(),
        visibility: ProductVisibility::Public,
        disabled: false,
        data_mode: ProductDataMode::Open,
        featured: 0,
        metadata: SourceProductMetadata {
            mirrors,
            primary_mirror: primary.to_string(),
            tags: None,
            roles: Vec::new(),
        },
        account: None,
    }
}

fn connection(provider: &str, auth: Option<&str>, region: Option<&str>) -> DataConnection {
    DataConnection {
        data_connection_id: "conn-1".to_string(),
        name: "n".to_string(),
        prefix_template: "".to_string(),
        read_only: false,
        allowed_data_modes: Vec::new(),
        required_flag: None,
        details: DataConnectionDetails {
            provider: provider.to_string(),
            region: region.map(|r| r.to_string()),
            base_prefix: Some("base/".to_string()),
            bucket: Some("bucket".to_string()),
            account_name: Some("acct".to_string()),
            container_name: Some("cont".to_string()),
        },
        authentication: auth.map(|a| DataConnectionAuthentication {
            auth_type: a.to_string(),
            access_key_id: Some("AK".to_string()),
            secret_access_key: Some("SK".to_string()),
        }),
    }
}

#[test]
fn missing_primary_mirror_is_404() {
    let p = product("aws", vec![("other".to_string(), mirror("alice/photos/"))]);
    let r = build_backend("alice", "photos", &p, &connection("s3", Some("s3_access_key"), None));
    assert!(matches!(r, Err(BackendError::SourceRepositoryMissingPrimaryMirror)));
    assert_eq!(r.unwrap_err().status_code(), 404);
    assert!(matches!(primary_connection_id(&p), Err(BackendError::SourceRepositoryMissingPrimaryMirror)));
}

#[test]
fn unknown_provider_is_500() {
    let p = product("aws", vec![("aws".to_string(), mirror("alice/photos/"))]);
    let r = build_backend("alice", "photos", &p, &connection("gcs", None, None));
    match r {
        Err(e @ BackendError::UnexpectedDataConnectionProvider { .. }) => {
            assert_eq!(e.status_code(), 500);
            assert_eq!(e.to_string(), "unexpected data connection provider (provider gcs)");
        }
        _ => panic!("expected UnexpectedDataConnectionProvider"),
    }
}

#[test]
fn s3_backend_is_built_from_connection_and_mirror() {
    let p = product("aws", vec![("aws".to_string(), mirror("alice/photos/"))]);
    assert_eq!(primary_connection_id(&p).unwrap(), "conn-1");
    let r = build_backend("alice", "photos", &p, &connection("s3", Some("s3_access_key"), Some("eu-west-1"))).unwrap();
    match r {
        Backend::S3(s) => {
            assert_eq!(s.base_prefix, "base/alice/photos");
            assert_eq!(s.region_name, "eu-west-1");
            assert_eq!(s.endpoint, "https://s3.eu-west-1.amazonaws.com");
            assert_eq!(s.bucket, "bucket");
            assert_eq!(s.auth_method, "s3_access_key");
            assert_eq!(s.access_key_id, Some("AK".to_string()));
            assert_eq!(s.object_key("a/b.jpg"), "base/alice/photos/a/b.jpg");
            assert_eq!(s.object_url("k"), "https://s3.eu-west-1.amazonaws.com/bucket/base/alice/photos/k");
            assert_eq!(s.credential_source().unwrap(), CredentialSource::StaticKeys);
        }
        Backend::Azure(_) => panic!("expected S3"),
    }
}

#[test]
fn local_s3_uses_local_endpoint() {
    let p = product("aws", vec![("aws".to_string(), mirror("p"))]);
    match build_backend("a", "r", &p, &connection("s3", Some("s3_local"), None)).unwrap() {
        Backend::S3(s) => {
            assert_eq!(s.region_name, "us-west-2");
            assert_eq!(s.endpoint, "http://localhost:5050");
            assert_eq!(s.object_url("k"), "http://localhost:5050/bucket/base/p/k");
            assert_eq!(s.source_url("bucket/x"), "http://localhost:5050/bucket/bucket/x");
            assert_eq!(s.credential_source().unwrap(), CredentialSource::DefaultChain);
        }
        Backend::Azure(_) => panic!("expected S3"),
    }
    match build_backend("a", "r", &p, &connection("s3", Some("s3_ecs_task_role"), None)).unwrap() {
        Backend::S3(s) => {
            assert_eq!(s.region_name, "us-east-1");
            assert_eq!(s.endpoint, "https://s3.us-east-1.amazonaws.com");
            assert_eq!(s.credential_source().unwrap(), CredentialSource::ContainerRole);
        }
        Backend::Azure(_) => panic!("expected S3"),
    }
}

#[test]
fn unsupported_auth_method_is_reported() {
    let p = product("aws", vec![("aws".to_string(), mirror("p"))]);
    match build_backend("a", "r", &p, &connection("s3", Some("basic"), None)).unwrap() {
        Backend::S3(s) => {
            let e = s.credential_source().unwrap_err();
            assert_eq!(e.status_code(), 400);
            assert_eq!(e.to_string(), "unsupported auth method: Unsupported auth method: basic");
        }
        Backend::Azure(_) => panic!("expected S3"),
    }
}

#[test]
fn azure_backend_is_built_and_read_only() {
    let p = product("az", vec![("az".to_string(), mirror("alice/photos/"))]);
    match build_backend("alice", "photos", &p, &connection("az", None, None)).unwrap() {
        Backend::Azure(z) => {
            assert_eq!(z.account_name, "acct");
            assert_eq!(z.container_name, "cont");
            assert_eq!(z.base_prefix, "base/alice/photos");
            assert_eq!(z.blob_name("a.txt"), "base/alice/photos/a.txt");
            assert_eq!(z.blob_url("a.txt"), "https://acct.blob.core.windows.net/cont/base/alice/photos/a.txt");
        }
        Backend::S3(_) => panic!("expected Azure"),
    }
    let e = source_data_proxy::backend::azure_write_unsupported("Put object");
    assert_eq!(e.status_code(), 400);
    assert_eq!(e.to_string(), "unsupported operation: Put object is not supported on Azure");
}

fn s3_repo() -> S3Repository {
    S3Repository {
        account_id: "alice".to_string(),
        repository_id: "photos".to_string(),
        region_name: "us-east-1".to_string(),
        endpoint: "https://s3.us-east-1.amazonaws.com".to_string(),
        bucket: "bucket".to_string(),
        base_prefix: "base/alice/photos".to_string(),
        auth_method: "s3_access_key".to_string(),
        access_key_id: None,
        secret_access_key: None,
    }
}

#[test]
fn s3_listing_keys_are_rooted_at_the_repository() {
    let s = s3_repo();
    assert_eq!(s.list_prefix("2024/"), "base/alice/photos/2024/");
    let page = S3ListPage {
        key_count: Some(2),
        max_keys: Some(1000),
        is_truncated: Some(false),
        next_continuation_token: None,
        contents: vec![
            S3ListedObject {
                key: Some("base/alice/photos/2024/a.jpg".to_string()),
                last_modified: Some("t1".to_string()),
                etag: Some("\"x\"".to_string()),
                size: Some(42),
                storage_class: Some("STANDARD".to_string()),
            },
            S3ListedObject { key: None, last_modified: None, etag: None, size: None, storage_class: None },
        ],
        common_prefixes: vec![Some("base/alice/photos/2024/jan/".to_string())],
    };
    let r = s.list_result("2024/", &page, "now");
    assert_eq!(r.name, "alice");
    assert_eq!(r.prefix, "photos/2024/");
    assert_eq!(r.key_count, 2);
    assert_eq!(r.contents[0].key, "photos/2024/a.jpg");
    assert_eq!(r.contents[0].size, 42);
    assert_eq!(r.contents[1].key, "");
    assert_eq!(r.contents[1].last_modified, "now");
    assert_eq!(r.common_prefixes[0].prefix, "photos/2024/jan/");
}

#[test]
fn azure_listing_keys_are_rooted_at_the_repository() {
    let z = AzureRepository {
        account_id: "alice".to_string(),
        repository_id: "photos".to_string(),
        account_name: "acct".to_string(),
        container_name: "cont".to_string(),
        base_prefix: "base/alice/photos/".to_string(),
    };
    assert_eq!(z.list_prefix("2024/"), "base/alice/photos/2024/");
    let page = AzureListPage {
        max_results: Some(1000),
        next_marker: Some("m2".to_string()),
        items: vec![
            AzureListedItem::Prefix { name: "base/alice/photos/2024/jan/".to_string() },
            AzureListedItem::Blob {
                name: "base/alice/photos/2024/a.jpg".to_string(),
                last_modified: "2024-01-01T00:00:00Z".to_string(),
                etag: "e".to_string(),
                size: 7,
                blob_type: "BlockBlob".to_string(),
            },
        ],
    };
    let r = z.list_result("2024/", &Some(page));
    assert_eq!(r.prefix, "2024/");
    assert_eq!(r.max_keys, 1000);
    assert!(r.is_truncated);
    assert_eq!(r.next_continuation_token, Some("m2".to_string()));
    assert_eq!(r.contents.len(), 1);
    assert_eq!(r.contents[0].key, "photos/2024/a.jpg");
    assert_eq!(r.contents[0].storage_class, "BlockBlob");
    assert_eq!(r.common_prefixes[0].prefix, "photos/2024/jan/");
    let empty = z.list_result("x", &None);
    assert!(!empty.is_truncated && empty.contents.is_empty() && empty.max_keys == 0);
}

#[test]
fn head_responses_default_and_reformat() {
    let h = S3Repository::head_response(Some(42), Some("image/jpeg".to_string()), Some("\"x\"".to_string()), None, "now");
    assert_eq!(h.content_length, 42);
    assert_eq!(h.content_type, "image/jpeg");
    assert_eq!(h.last_modified, "now");
    assert_eq!(S3Repository::head_response(Some(-1), None, None, None, "n").content_length, 0);
    let a = AzureRepository::head_response(3, "t".to_string(), "e".to_string(), Some("Tue, 1 Jul 2003 10:52:37 +0200".to_string()));
    assert_eq!(a.last_modified, "Tue, 01 Jul 2003 08:52:37 GMT");
    let bad = AzureRepository::head_response(3, "t".to_string(), "e".to_string(), Some("garbage".to_string()));
    assert_eq!(bad.last_modified, "Invalid DateTime");
}

#[test]
fn multipart_responses_report_the_account_as_bucket() {
    let s = s3_repo();
    let c = s.create_multipart_response("new.jpg".to_string(), "up-1".to_string());
    assert_eq!((c.bucket.as_str(), c.key.as_str(), c.upload_id.as_str()), ("alice", "new.jpg", "up-1"));
    let d = s.complete_multipart_response("new.jpg".to_string(), "\"etag\"".to_string());
    assert_eq!((d.location.as_str(), d.bucket.as_str(), d.etag.as_str()), ("", "alice", "\"etag\""));
    assert_eq!(s.source_url("bucket/src.jpg"), "https://s3.us-east-1.amazonaws.com/bucket/bucket/src.jpg");
}

#[test]
fn part_numbers_parse_or_are_rejected() {
    assert_eq!(parse_part_number("1").unwrap(), 1);
    assert_eq!(parse_part_number("+7").unwrap(), 7);
    assert!(matches!(parse_part_number("x"), Err(BackendError::InvalidRequest(_))));
    assert!(matches!(parse_part_number("9223372036854775808"), Err(BackendError::InvalidRequest(_))));
}

#[test]
fn s3_uris_are_read() {
    assert_eq!(parse_s3_uri("s3://bucket/pre/fix").unwrap(), ("bucket".to_string(), "pre/fix".to_string()));
    assert_eq!(parse_s3_uri("s3://bucket").unwrap(), ("bucket".to_string(), "".to_string()));
    assert!(parse_s3_uri("https://x").is_err());
}

#[test]
fn empty_access_key_is_cached_as_anonymous() {
    let first = api_key_step("", None);
    let sentinel = match first {
        ApiKeyStep::StoreAnonymous(k) => k,
        _ => panic!("expected the anonymous key"),
    };
    assert_eq!(sentinel.access_key_id, "");
    assert_eq!(sentinel.secret_access_key, "");
    match api_key_step("", Some(sentinel)) {
        ApiKeyStep::Hit(k) => assert_eq!(k.access_key_id, ""),
        _ => panic!("second lookup must hit the cache"),
    }
    assert!(matches!(api_key_step("AKID", None), ApiKeyStep::Fetch));
}

#[test]
fn cache_keys_follow_the_table() {
    assert_eq!(CACHE_TTL_SECS, 60);
    assert_eq!(repository_cache_key("alice", "photos"), "alice/photos");
    let anon = UserIdentity { api_key: None };
    assert_eq!(permissions_cache_key(&anon, "alice", "photos"), "alice/photos");
    let user = UserIdentity {
        api_key: Some(APIKey { access_key_id: "AK".to_string(), secret_access_key: "S".to_string() }),
    };
    assert_eq!(permissions_cache_key(&user, "alice", "photos"), "alice/photos/AK");
    assert_eq!(product_url("https://api", "alice", "photos"), "https://api/api/v1/products/alice/photos");
}

#[test]
fn permissions_decide_authorization() {
    let perms = vec![RepositoryPermission::Read];
    assert!(has_permission(&perms, RepositoryPermission::Read));
    assert!(!has_permission(&perms, RepositoryPermission::Write));
    assert_eq!(authorization_outcome(&perms, RepositoryPermission::Read).unwrap(), true);
    let e = authorization_outcome(&perms, RepositoryPermission::Write).unwrap_err();
    assert_eq!(e.status_code(), 401);
}

#[test]
fn account_lists_product_ids() {
    let list = SourceProductList {
        products: vec![product("a", Vec::new()), product("b", Vec::new())],
        next: None,
    };
    let a = account_from_products(&list);
    assert_eq!(a.repositories, vec!["photos".to_string(), "photos".to_string()]);
}
