use cnb_cli::api::{
    cancel_build_request, create_issue_request, create_pr_request, create_repo_request,
    delete_repo_request, get_build_logs_request, get_build_status_request,
    get_current_user_request, get_issue_request, get_pr_request, get_repo_request,
    list_builds_request, list_issues_request, list_prs_request, list_repos_request,
    merge_pr_request, trigger_build_request, Method, RequestBody, ResponseKind,
};
use cnb_cli::endpoint::{authorization_value, endpoint, normalize_base_url, normalized_path};
use cnb_cli::error::ClientError;
use cnb_cli::paths::QueryParam;

#[test]
fn current_user_request() {
    let r = get_current_user_request();
    assert_eq!(r.method, Method::Get);
    assert_eq!(r.segments, vec!["user"]);
    assert!(r.query.is_empty());
    assert!(matches!(r.body, RequestBody::Empty));
    assert_eq!(r.response, ResponseKind::Json);
    assert_eq!(r.action, "get current user");
}

#[test]
fn list_repos_request_by_group_or_user() {
    let r = list_repos_request(Some("g"), Some(1), None);
    assert_eq!(r.segments, vec!["groups", "g", "repos"]);
    assert_eq!(r.query, vec![QueryParam { name: "page", value: 1 }]);
    let r = list_repos_request(None, None, None);
    assert_eq!(r.segments, vec!["user", "repos"]);
    assert!(r.query.is_empty());
    assert_eq!(r.action, "list repos");
}

#[test]
fn repo_requests() {
    let r = get_repo_request("o/r").unwrap();
    assert_eq!((r.method, r.segments.clone(), r.action), (Method::Get, vec!["o".to_string(), "r".to_string()], "get repo"));
    let r = delete_repo_request("o/r").unwrap();
    assert_eq!(r.method, Method::Delete);
    assert_eq!(r.response, ResponseKind::Empty);
    assert!(matches!(delete_repo_request("o"), Err(ClientError::InvalidSlug(s)) if s == "o"));
    let r = create_repo_request("g", "n", Some("d"), true);
    assert_eq!(r.method, Method::Post);
    assert_eq!(r.segments, vec!["groups", "g", "repos"]);
    match r.body {
        RequestBody::CreateRepo { name, description, private } => {
            assert_eq!(name, "n");
            assert_eq!(description.as_deref(), Some("d"));
            assert!(private);
        }
        _ => panic!("wrong body"),
    }
}

#[test]
fn issue_requests() {
    let r = list_issues_request("o/r", Some(2), Some(30)).unwrap();
    assert_eq!(r.segments, vec!["o", "r", "-", "issues"]);
    assert_eq!(r.query.len(), 2);
    let r = get_issue_request("o/r", -5).unwrap();
    assert_eq!(r.segments, vec!["o", "r", "-", "issues", "-5"]);
    assert_eq!(r.action, "get issue");
    let r = create_issue_request("o/r", "t", None).unwrap();
    assert_eq!(r.method, Method::Post);
    assert!(matches!(r.body, RequestBody::CreateIssue { ref title, body: None } if title == "t"));
    assert!(get_issue_request("bad", 1).is_err());
}

#[test]
fn pull_request_requests() {
    assert_eq!(list_prs_request("o/r", None, None).unwrap().segments, vec!["o", "r", "-", "pulls"]);
    assert_eq!(get_pr_request("o/r", 12).unwrap().segments, vec!["o", "r", "-", "pulls", "12"]);
    let r = merge_pr_request("o/r", 12).unwrap();
    assert_eq!(r.method, Method::Put);
    assert_eq!(r.segments, vec!["o", "r", "-", "pulls", "12", "merge"]);
    let r = create_pr_request("o/r", "t", "feat", "main", Some("b")).unwrap();
    match r.body {
        RequestBody::CreatePr { title, source_branch, target_branch, body } => {
            assert_eq!((title.as_str(), source_branch.as_str(), target_branch.as_str()), ("t", "feat", "main"));
            assert_eq!(body.as_deref(), Some("b"));
        }
        _ => panic!("wrong body"),
    }
    assert_eq!(r.action, "create pull request");
}

#[test]
fn build_requests() {
    assert_eq!(list_builds_request("o/r", None, None).unwrap().segments, vec!["o", "r", "-", "build", "logs"]);
    assert_eq!(get_build_status_request("o/r", "cnb-1").unwrap().segments, vec!["o", "r", "-", "build", "status", "cnb-1"]);
    let r = trigger_build_request("o/r", "main", Some("abc")).unwrap();
    assert_eq!(r.segments, vec!["o", "r", "-", "build", "start"]);
    assert!(matches!(r.body, RequestBody::StartBuild { ref branch, ref sha } if branch == "main" && sha.as_deref() == Some("abc")));
    let r = cancel_build_request("o/r", "sn").unwrap();
    assert_eq!((r.method, r.action), (Method::Post, "cancel build"));
    assert_eq!(r.segments, vec!["o", "r", "-", "build", "stop", "sn"]);
    let r = get_build_logs_request("o/r", "sn").unwrap();
    assert_eq!(r.response, ResponseKind::Text);
    assert_eq!(r.segments, vec!["o", "r", "-", "build", "logs", "sn"]);
}

#[test]
fn set_page_replaces_the_query() {
    let mut r = list_issues_request("o/r", None, None).unwrap();
    r.set_page(4, 30);
    assert_eq!(r.query, vec![QueryParam { name: "page", value: 4 }, QueryParam { name: "page_size", value: 30 }]);
    assert_eq!(r.segments, vec!["o", "r", "-", "issues"]);
}

#[test]
fn normalize_base_url_keeps_or_adds_trailing_slash() {
    assert_eq!(normalize_base_url("https://h.example/api").unwrap().as_str(), "https://h.example/api/");
    assert_eq!(normalize_base_url("https://h.example/api/").unwrap().as_str(), "https://h.example/api/");
    assert_eq!(normalize_base_url("https://h.example/a?x=1").unwrap().as_str(), "https://h.example/a/?x=1");
}

#[test]
fn normalize_base_url_refuses_what_does_not_parse() {
    let err = normalize_base_url("not a url").unwrap_err();
    assert_eq!(err, ClientError::InvalidBaseUrl("relative URL without a base".to_string()));
    assert_eq!(err.message(), "Invalid API base URL");
    assert_eq!(err.cause().as_deref(), Some("relative URL without a base"));
    assert!(matches!(normalize_base_url(""), Err(ClientError::InvalidBaseUrl(_))));
}

#[test]
fn endpoint_appends_encoded_segments() {
    let base = normalize_base_url("https://api.cnb.cool").unwrap();
    let segs = vec!["o".to_string(), "r".to_string(), "-".to_string(), "issues".to_string()];
    assert_eq!(endpoint(&base, &segs).unwrap(), "https://api.cnb.cool/o/r/-/issues");
    let segs = vec!["a b".to_string(), "c/d".to_string()];
    assert_eq!(endpoint(&base, &segs).unwrap(), "https://api.cnb.cool/a%20b/c%2Fd");
}

#[test]
fn endpoint_refuses_a_cannot_be_a_base_url() {
    let base = normalize_base_url("mailto:someone@example.com").unwrap();
    let r = endpoint(&base, &vec!["user".to_string()]);
    assert_eq!(r, Err(ClientError::CannotBeABase));
    assert_eq!(ClientError::CannotBeABase.message(), "base URL cannot be a base");
}

#[test]
fn authorization_value_carries_the_token() {
    assert!(authorization_value(None).unwrap().is_none());
    let v = authorization_value(Some("abc")).unwrap().unwrap();
    assert_eq!(v.as_str(), "Bearer abc");
    assert_eq!(v.into_value().to_str().unwrap(), "Bearer abc");
    let err = authorization_value(Some("a\nb")).unwrap_err();
    assert_eq!(err, ClientError::InvalidToken("failed to parse header value".to_string()));
    assert_eq!(err.message(), "Invalid token value for Authorization header");
    assert_eq!(err.cause().as_deref(), Some("failed to parse header value"));
    assert_eq!(ClientError::CannotBeABase.cause(), None);
}

#[test]
fn normalized_path_adds_one_slash() {
    assert_eq!(normalized_path("/"), None);
    assert_eq!(normalized_path("/api/"), None);
    assert_eq!(normalized_path("/api").as_deref(), Some("/api/"));
    assert_eq!(normalized_path("").as_deref(), Some("/"));
}
