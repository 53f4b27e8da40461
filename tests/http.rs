use source_data_proxy::http::{
    account_listing, content_range, delete_action, effective_max_keys, get_status, list_route,
    parse_range, parse_u64, post_action, put_action, DeleteAction, ListRoute, PostAction,
    PutAction,
};
use source_data_proxy::errors::BackendError;
use source_data_proxy::model::Account;

#[test]
fn open_range_on_one_byte_object() {
    let r = parse_range(Some("bytes=0-")).unwrap();
    assert_eq!(r.start, 0);
    assert_eq!(r.header, "bytes=0-");
    assert_eq!(get_status(&Some(r)), 206);
    assert_eq!(content_range(0, 1, 1).unwrap(), "bytes 0-0/1");
}

#[test]
fn closed_range_slice() {
    let r = parse_range(Some("bytes=10-19")).unwrap();
    assert_eq!(r.start, 10);
    assert_eq!(r.header, "bytes=10-19");
    assert_eq!(content_range(10, 10, 42).unwrap(), "bytes 10-19/42");
}

#[test]
fn non_range_requests() {
    assert!(parse_range(None).is_none());
    assert!(parse_range(Some("items=0-1")).is_none());
    assert!(parse_range(Some("bytes=a-1")).is_none());
    assert!(parse_range(Some("bytes=1-b")).is_none());
    assert!(parse_range(Some("bytes=5")).is_none());
    assert_eq!(get_status(&None), 200);
    assert!(content_range(0, 0, 0).is_none());
    assert!(content_range(u64::MAX, 2, 0).is_none());
}

#[test]
fn numbers_parse_like_std() {
    for s in ["0", "42", "+7", "18446744073709551615", "18446744073709551616", "", "+", "-1", "1a"] {
        assert_eq!(parse_u64(s), s.parse::<u64>().ok(), "{}", s);
    }
}

#[test]
fn put_routes() {
    assert!(matches!(put_action(Some("b/k".to_string()), None, None), Ok(PutAction::Copy(c)) if c == "b/k"));
    assert!(matches!(
        put_action(Some("b/k".to_string()), Some("1".to_string()), Some("u".to_string())),
        Ok(PutAction::Copy(_))
    ));
    match put_action(None, Some("1".to_string()), Some("u".to_string())) {
        Ok(PutAction::UploadPart(q)) => {
            assert_eq!(q.part_number, "1");
            assert_eq!(q.upload_id, "u");
        }
        _ => panic!("expected an upload part"),
    }
    assert!(matches!(put_action(None, None, None), Ok(PutAction::Put)));
    let e = put_action(None, Some("1".to_string()), None).unwrap_err();
    assert!(matches!(e, BackendError::InvalidRequest(_)));
    assert_eq!(e.status_code(), 400);
}

#[test]
fn post_and_delete_routes() {
    assert!(matches!(post_action(Some("".to_string()), None), Ok(PostAction::Initiate(_))));
    assert!(matches!(post_action(None, Some("u".to_string())), Ok(PostAction::Complete(q)) if q.upload_id == "u"));
    assert!(matches!(post_action(None, None), Err(BackendError::InvalidRequest(_))));
    assert!(matches!(delete_action(Some("u".to_string())), DeleteAction::Abort(q) if q.upload_id == "u"));
    assert!(matches!(delete_action(None), DeleteAction::Delete));
}

#[test]
fn empty_prefix_lists_the_account() {
    assert!(matches!(list_route(&None), ListRoute::Account));
    assert!(matches!(list_route(&Some(String::new())), ListRoute::Account));
    let account = Account { repositories: vec!["photos".to_string(), "videos".to_string()] };
    let r = account_listing("alice", &account);
    assert_eq!(r.name, "alice");
    assert_eq!(r.prefix, "/");
    let prefixes: Vec<&str> = r.common_prefixes.iter().map(|p| p.prefix.as_str()).collect();
    assert_eq!(prefixes, vec!["photos/", "videos/"]);
    assert!(r.contents.is_empty());
}

#[test]
fn prefix_lists_inside_a_repository() {
    match list_route(&Some("photos/2024/".to_string())) {
        ListRoute::Repository { repository_id, prefix } => {
            assert_eq!(repository_id, "photos");
            assert_eq!(prefix, "2024/");
        }
        ListRoute::Account => panic!("expected a repository listing"),
    }
    match list_route(&Some("photos".to_string())) {
        ListRoute::Repository { repository_id, prefix } => {
            assert_eq!(repository_id, "photos");
            assert_eq!(prefix, "");
        }
        ListRoute::Account => panic!("expected a repository listing"),
    }
    assert_eq!(effective_max_keys(None), 1000);
    assert_eq!(effective_max_keys(Some(5)), 5);
}

#[test]
fn empty_account_default() {
    assert!(Account::default().repositories.is_empty());
}
