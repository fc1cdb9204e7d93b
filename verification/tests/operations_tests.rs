use janus::remote::{RemoteIssue, RemoteRef, RemoteStatus};
use janus::error::JanusError;
use janus::tui::remote::state::IdSet;
use janus::tui::remote::operations::{
    AdoptRun, AdoptStep, AdoptedTicket, build_remote_ref_from_issue, extract_issue_id_from_remote_ref, sanitize_for_yaml,
};

fn issue(id: &str, url: &str) -> RemoteIssue {
    RemoteIssue {
        id: id.to_string(),
        url: url.to_string(),
        title: "Test Issue".to_string(),
        body: "".to_string(),
        status: RemoteStatus::Open,
        priority: None,
        assignee: None,
        updated_at: "".to_string(),
        labels: vec![],
        team: None,
        project: None,
        milestone: None,
        due_date: None,
        created_at: "".to_string(),
        creator: None,
    }
}

fn expect_github(issue: &RemoteIssue, owner_exp: &str, repo_exp: &str, number: u64) {
    match build_remote_ref_from_issue(issue).unwrap() {
        RemoteRef::GitHub { owner, repo, issue_number } => {
            assert_eq!(owner, owner_exp);
            assert_eq!(repo, repo_exp);
            assert_eq!(issue_number, number);
        }
        _ => panic!("Expected GitHub ref"),
    }
}

fn expect_linear(issue: &RemoteIssue, org_exp: &str, id_exp: &str) {
    match build_remote_ref_from_issue(issue).unwrap() {
        RemoteRef::Linear { org, issue_id } => {
            assert_eq!(org, org_exp);
            assert_eq!(issue_id, id_exp);
        }
        _ => panic!("Expected Linear ref"),
    }
}

#[test]
fn test_sanitize_for_yaml_basic() {
    assert_eq!(sanitize_for_yaml("Hello world"), "Hello world");
}

#[test]
fn test_sanitize_for_yaml_with_delimiter() {
    assert_eq!(sanitize_for_yaml("---"), "&#45;&#45;&#45;");
}

#[test]
fn test_sanitize_for_yaml_multiple_delimiters() {
    assert_eq!(sanitize_for_yaml("---\n---"), "&#45;&#45;&#45;\n&#45;&#45;&#45;");
}

#[test]
fn test_sanitize_for_yaml_embedded_delimiter() {
    assert_eq!(
        sanitize_for_yaml("Some text\n---\nMore text"),
        "Some text\n&#45;&#45;&#45;\nMore text"
    );
}

#[test]
fn test_sanitize_for_yaml_title_injection() {
    let result = sanitize_for_yaml("--- malicious title ---");
    assert!(result.contains("&#45;&#45;&#45;"));
    assert!(!result.contains("---"));
}

#[test]
fn test_sanitize_for_yaml_body_injection() {
    let body = "Description\n---\nid: inject\n---\nMore text";
    let result = sanitize_for_yaml(body);
    assert!(!result.contains("---"));
    assert_eq!(result, "Description\n&#45;&#45;&#45;\nid: inject\n&#45;&#45;&#45;\nMore text");
}

#[test]
fn test_build_remote_ref_from_github_issue_by_number() {
    expect_github(&issue("2", "https://github.com/owner/repo/issues/2"), "owner", "repo", 2);
}

#[test]
fn test_build_remote_ref_from_linear_issue_by_id() {
    expect_linear(
        &issue("ENG-123", "https://linear.app/my-org/issue/ENG-123/test-issue"),
        "my-org",
        "ENG-123",
    );
}

#[test]
fn test_build_remote_ref_invalid() {
    assert!(build_remote_ref_from_issue(&issue("invalid", "https://example.com/invalid")).is_err());
}

#[test]
fn test_extract_issue_id_from_github_ref() {
    assert_eq!(extract_issue_id_from_remote_ref("github:owner/repo/123"), Some("123".to_string()));
    assert_eq!(extract_issue_id_from_remote_ref("github:foo/bar/456"), Some("456".to_string()));
}

#[test]
fn test_extract_issue_id_from_linear_ref() {
    assert_eq!(extract_issue_id_from_remote_ref("linear:org/PROJ-123"), Some("PROJ-123".to_string()));
    assert_eq!(
        extract_issue_id_from_remote_ref("linear:company/ENG-456"),
        Some("ENG-456".to_string())
    );
}

#[test]
fn test_extract_issue_id_invalid_formats() {
    assert_eq!(extract_issue_id_from_remote_ref("invalid:format"), None);
    assert_eq!(extract_issue_id_from_remote_ref("github:owner"), None);
    assert_eq!(extract_issue_id_from_remote_ref("github:owner/repo"), None);
    assert_eq!(extract_issue_id_from_remote_ref("linear:org"), None);
    assert_eq!(extract_issue_id_from_remote_ref(""), None);
}

#[test]
fn test_build_remote_ref_github_with_trailing_slash() {
    expect_github(&issue("42", "https://github.com/owner/repo/issues/42/"), "owner", "repo", 42);
}

#[test]
fn test_build_remote_ref_github_with_www_prefix() {
    expect_github(&issue("99", "https://www.github.com/owner/repo/issues/99"), "owner", "repo", 99);
}

#[test]
fn test_build_remote_ref_linear_with_trailing_slash() {
    expect_linear(
        &issue("ENG-456", "https://linear.app/my-org/issue/ENG-456/test-issue/"),
        "my-org",
        "ENG-456",
    );
}

#[test]
fn test_build_remote_ref_github_with_query_params() {
    expect_github(&issue("7", "https://github.com/owner/repo/issues/7?q=1"), "owner", "repo", 7);
}

#[test]
fn test_build_remote_ref_invalid_url() {
    assert!(build_remote_ref_from_issue(&issue("123", "not-a-valid-url")).is_err());
}

#[test]
fn remote_ref_renders_as_text() {
    let r = build_remote_ref_from_issue(&issue("2", "https://github.com/owner/repo/issues/2")).unwrap();
    assert_eq!(r.to_string(), "github:owner/repo/2");
    let l = build_remote_ref_from_issue(&issue("ENG-1", "https://linear.app/acme/issue/ENG-1/x")).unwrap();
    assert_eq!(l.to_string(), "linear:acme/ENG-1");
}

#[test]
fn sanitizing_twice_changes_nothing_more() {
    let once = sanitize_for_yaml("a---b\n---");
    assert_eq!(sanitize_for_yaml(&once), once);
}

/// Runs an adoption to its end, creating each ticket asked for with
/// `create`.
fn adopt_issues<F: FnMut(&AdoptedTicket) -> Result<String, JanusError>>(
    issues: &[RemoteIssue],
    _local_ids: &IdSet,
    mut create: F,
) -> Result<Vec<String>, JanusError> {
    let mut run = AdoptRun::new();
    let mut step = run.next(issues);
    loop {
        match step {
            AdoptStep::Create(draft) => {
                let created = create(&draft);
                step = run.created(issues, created);
            }
            AdoptStep::Done(result) => return result,
        }
    }
}

fn adoptable_issue(id: &str) -> RemoteIssue {
    issue(id, &format!("https://github.com/owner/repo/issues/{id}"))
}

#[test]
fn adopt_empty_list_creates_nothing() {
    let ids = adopt_issues(&[], &IdSet::new(), |_: &AdoptedTicket| Err(JanusError::Other("no".to_string())));
    assert_eq!(ids.unwrap(), Vec::<String>::new());
}

#[test]
fn adopt_creates_in_order() {
    let issues = vec![adoptable_issue("1"), adoptable_issue("2")];
    let ids = adopt_issues(&issues, &IdSet::new(), |d: &AdoptedTicket| Ok(format!("j-{}", d.remote))).unwrap();
    assert_eq!(ids, vec!["j-github:owner/repo/1".to_string(), "j-github:owner/repo/2".to_string()]);
}

#[test]
fn adopt_stops_at_invalid_reference_after_earlier_tickets() {
    let created = std::cell::RefCell::new(Vec::new());
    let issues = vec![adoptable_issue("1"), issue("2", "not a url"), adoptable_issue("3")];
    let r = adopt_issues(&issues, &IdSet::new(), |d: &AdoptedTicket| {
        created.borrow_mut().push(d.remote.clone());
        Ok("j-x".to_string())
    });
    match r {
        Err(JanusError::InvalidRemoteRef(id, _)) => assert_eq!(id, "2"),
        other => panic!("unexpected {other:?}"),
    }
    assert_eq!(*created.borrow(), vec!["github:owner/repo/1".to_string()]);
}

#[test]
fn adopt_stops_at_empty_title_and_create_failure() {
    let mut untitled = adoptable_issue("1");
    untitled.title = String::new();
    match adopt_issues(&[untitled], &IdSet::new(), |_: &AdoptedTicket| Ok("j-x".to_string())) {
        Err(JanusError::EmptyTitle) => {}
        other => panic!("unexpected {other:?}"),
    }
    match adopt_issues(&[adoptable_issue("1")], &IdSet::new(), |_: &AdoptedTicket| {
        Err(JanusError::Other("disk full".to_string()))
    }) {
        Err(JanusError::Other(m)) => assert_eq!(m, "disk full"),
        other => panic!("unexpected {other:?}"),
    }
}

#[test]
fn adopt_creates_each_ticket_once() {
    let calls = std::cell::Cell::new(0usize);
    let issues = vec![adoptable_issue("1"), adoptable_issue("2"), adoptable_issue("3")];
    let ids = adopt_issues(&issues, &IdSet::new(), |_: &AdoptedTicket| {
        calls.set(calls.get() + 1);
        Ok(format!("j-{}", calls.get()))
    })
    .unwrap();
    assert_eq!(calls.get(), 3);
    assert_eq!(ids, vec!["j-1".to_string(), "j-2".to_string(), "j-3".to_string()]);
}

#[test]
fn adopt_steps_one_issue_at_a_time() {
    let issues = vec![adoptable_issue("1"), issue("2", "not a url")];
    let mut run = AdoptRun::new();
    match run.next(&issues) {
        AdoptStep::Create(d) => assert_eq!(d.remote, "github:owner/repo/1"),
        other => panic!("unexpected {other:?}"),
    }
    match run.created(&issues, Ok("j-1".to_string())) {
        AdoptStep::Done(Err(JanusError::InvalidRemoteRef(id, _))) => assert_eq!(id, "2"),
        other => panic!("unexpected {other:?}"),
    }
    assert_eq!(run.adopted, vec!["j-1".to_string()]);
}
