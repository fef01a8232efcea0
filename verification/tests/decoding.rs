use cpp_auto_format::DecodeError;
use cpp_auto_format::FieldPath;
use cpp_auto_format::WebhookEvent;
use cpp_auto_format::decode;

const ISSUE_COMMENT_BODY: &str = r#"{
  "action": "created",
  "comment": { "body": "@cpp-auto-formatter format" },
  "issue": { "pull_request": { "url": "https://api.example.test/pulls/7" } },
  "repository": { "full_name": "org/repo" }
}"#;

#[test]
fn issue_comment_payload_decodes() {
    let ev = decode(ISSUE_COMMENT_BODY, "issue_comment").unwrap();
    match ev {
        WebhookEvent::IssueComment(ev) => {
            assert_eq!(ev.action, "created".to_string());
            assert_eq!(ev.comment.body, "@cpp-auto-formatter format".to_string());
            assert_eq!(
                ev.issue.pull_request.unwrap().url,
                "https://api.example.test/pulls/7".to_string(),
            );
            assert_eq!(ev.repository.full_name, "org/repo".to_string());
        },
        other => panic!("expected an issue_comment event, got {:?}", other),
    }
}

#[test]
fn issue_comment_without_pull_request_link_decodes() {
    let body = r#"{
      "action": "created",
      "comment": { "body": "hello" },
      "issue": {},
      "repository": { "full_name": "org/repo" }
    }"#;
    match decode(body, "issue_comment").unwrap() {
        WebhookEvent::IssueComment(ev) => assert!(ev.issue.pull_request.is_none()),
        other => panic!("expected an issue_comment event, got {:?}", other),
    }
}

#[test]
fn push_payload_decodes() {
    let body = r#"{ "ref": "refs/heads/main", "repository": { "full_name": "org/repo" } }"#;
    match decode(body, "push").unwrap() {
        WebhookEvent::Push(ev) => {
            assert_eq!(ev.git_ref, "refs/heads/main".to_string());
            assert_eq!(ev.repository.full_name, "org/repo".to_string());
        },
        other => panic!("expected a push event, got {:?}", other),
    }
}

#[test]
fn unknown_kind_is_unsupported() {
    assert_eq!(decode(ISSUE_COMMENT_BODY, "pull_request").unwrap_err(), DecodeError::UnsupportedEventKind);
    assert_eq!(decode("{}", "").unwrap_err(), DecodeError::UnsupportedEventKind);
}

#[test]
fn unparseable_document_points_at_the_document() {
    assert_eq!(decode("not json at all", "push").unwrap_err(), DecodeError::MalformedPayload { field_path: FieldPath::Document });
}

#[test]
fn missing_members_are_reported_by_path() {
    let no_action = r#"{
      "comment": { "body": "x" },
      "issue": {},
      "repository": { "full_name": "org/repo" }
    }"#;
    assert_eq!(decode(no_action, "issue_comment").unwrap_err(), DecodeError::MalformedPayload { field_path: FieldPath::Action });

    let no_body = r#"{
      "action": "created",
      "comment": {},
      "issue": {},
      "repository": { "full_name": "org/repo" }
    }"#;
    assert_eq!(decode(no_body, "issue_comment").unwrap_err(), DecodeError::MalformedPayload { field_path: FieldPath::CommentBody });

    let no_issue = r#"{
      "action": "created",
      "comment": { "body": "x" },
      "repository": { "full_name": "org/repo" }
    }"#;
    assert_eq!(decode(no_issue, "issue_comment").unwrap_err(), DecodeError::MalformedPayload { field_path: FieldPath::Issue });

    let pr_without_url = r#"{
      "action": "created",
      "comment": { "body": "x" },
      "issue": { "pull_request": {} },
      "repository": { "full_name": "org/repo" }
    }"#;
    assert_eq!(decode(pr_without_url, "issue_comment").unwrap_err(), DecodeError::MalformedPayload { field_path: FieldPath::PullRequestUrl });

    let no_repo = r#"{ "ref": "refs/heads/main" }"#;
    assert_eq!(decode(no_repo, "push").unwrap_err(), DecodeError::MalformedPayload { field_path: FieldPath::RepositoryFullName });

    let no_ref = r#"{ "repository": { "full_name": "org/repo" } }"#;
    assert_eq!(decode(no_ref, "push").unwrap_err(), DecodeError::MalformedPayload { field_path: FieldPath::GitRef });
}

#[test]
fn wrong_member_type_is_malformed() {
    let numeric_ref = r#"{ "ref": 7, "repository": { "full_name": "org/repo" } }"#;
    assert_eq!(decode(numeric_ref, "push").unwrap_err(), DecodeError::MalformedPayload { field_path: FieldPath::GitRef });
}

#[test]
fn field_paths_have_diagnostic_text() {
    assert_eq!(FieldPath::Action.as_text(), "action".to_string());
    assert_eq!(FieldPath::CommentBody.as_text(), "comment.body".to_string());
    assert_eq!(FieldPath::GitRef.as_text(), "ref".to_string());
    assert_eq!(FieldPath::Document.as_text(), "".to_string());
}

#[test]
fn decoding_the_same_text_twice_gives_the_same_event() {
    let body = r#"{ "ref": "refs/heads/main", "repository": { "full_name": "org/repo" } }"#;
    let first = match decode(body, "push").unwrap() {
        WebhookEvent::Push(ev) => ev,
        other => panic!("expected a push event, got {:?}", other),
    };
    let second = match decode(body, "push").unwrap() {
        WebhookEvent::Push(ev) => ev,
        other => panic!("expected a push event, got {:?}", other),
    };
    assert_eq!(first.git_ref, second.git_ref);
    assert_eq!(first.repository.full_name, second.repository.full_name);
}
