use cpp_auto_format::CommentDecision;
use cpp_auto_format::FlowEvent;
use cpp_auto_format::FlowMode;
use cpp_auto_format::FlowState;
use cpp_auto_format::FormatTarget;
use cpp_auto_format::GitHubEventRepository;
use cpp_auto_format::GitHubIssue;
use cpp_auto_format::GitHubIssueComment;
use cpp_auto_format::GitHubIssueCommentEvent;
use cpp_auto_format::GitHubIssuePullRequest;
use cpp_auto_format::GlobRuleSet;
use cpp_auto_format::Subcommand;
use cpp_auto_format::WebhookEvent;
use cpp_auto_format::decide_comment;
use cpp_auto_format::decode;
use cpp_auto_format::resolve_for_push;
use cpp_auto_format::step;

fn target() -> FormatTarget {
    FormatTarget {
        repository_full_name: "org/repo".to_string(),
        branch_name: "main".to_string(),
    }
}

fn run_result(state: FlowState) -> (bool, u8) {
    match state {
        FlowState::Done { result } => (result.files_changed, result.exit_code),
        other => panic!("run did not finish: {:?}", other),
    }
}

#[test]
fn check_flow_dirty_tree_exits_one() {
    let mut state = FlowState::Resolved { target: target(), mode: FlowMode::CheckOnly };
    state = step(state, FlowEvent::CheckoutFinished { success: true });
    state = step(state, FlowEvent::FormatFinished { success: true });
    state = step(state, FlowEvent::DiffComputed { changed: true });
    assert_eq!(run_result(state), (true, 1));
}

#[test]
fn check_flow_clean_tree_exits_zero_twice() {
    for _ in 0..2 {
        let mut state = FlowState::Resolved { target: target(), mode: FlowMode::CheckOnly };
        state = step(state, FlowEvent::CheckoutFinished { success: true });
        state = step(state, FlowEvent::FormatFinished { success: true });
        state = step(state, FlowEvent::DiffComputed { changed: false });
        assert_eq!(run_result(state), (false, 0));
    }
}

#[test]
fn push_flow_commits_only_a_changed_tree() {
    let mut state = FlowState::Resolved { target: target(), mode: FlowMode::FormatAndPush };
    state = step(state, FlowEvent::CheckoutFinished { success: true });
    state = step(state, FlowEvent::FormatFinished { success: true });
    state = step(state, FlowEvent::DiffComputed { changed: true });
    assert!(matches!(state, FlowState::AwaitingPush));
    state = step(state, FlowEvent::PushFinished { success: true });
    assert_eq!(run_result(state), (true, 0));

    let mut state = FlowState::Resolved { target: target(), mode: FlowMode::FormatAndPush };
    state = step(state, FlowEvent::CheckoutFinished { success: true });
    state = step(state, FlowEvent::FormatFinished { success: true });
    state = step(state, FlowEvent::DiffComputed { changed: false });
    assert_eq!(run_result(state), (false, 0));
}

#[test]
fn failed_checkout_is_fatal() {
    let state = FlowState::Resolved { target: target(), mode: FlowMode::FormatAndPush };
    let state = step(state, FlowEvent::CheckoutFinished { success: false });
    assert_eq!(run_result(state), (false, 1));
}

#[test]
fn failed_formatter_is_fatal() {
    let mut state = FlowState::Resolved { target: target(), mode: FlowMode::CheckOnly };
    state = step(state, FlowEvent::CheckoutFinished { success: true });
    state = step(state, FlowEvent::FormatFinished { success: false });
    assert_eq!(run_result(state), (false, 1));
}

#[test]
fn failed_push_is_fatal() {
    let mut state = FlowState::Resolved { target: target(), mode: FlowMode::FormatAndPush };
    state = step(state, FlowEvent::CheckoutFinished { success: true });
    state = step(state, FlowEvent::FormatFinished { success: true });
    state = step(state, FlowEvent::DiffComputed { changed: true });
    state = step(state, FlowEvent::PushFinished { success: false });
    assert_eq!(run_result(state), (true, 1));
}

fn comment_event(body: &str) -> GitHubIssueCommentEvent {
    GitHubIssueCommentEvent {
        action: "created".to_string(),
        comment: GitHubIssueComment { body: body.to_string() },
        issue: GitHubIssue {
            pull_request: Some(GitHubIssuePullRequest {
                url: "https://api.example.test/pulls/7".to_string(),
            }),
        },
        repository: GitHubEventRepository { full_name: "org/repo".to_string() },
    }
}

#[test]
fn comment_triage() {
    let ignored = decide_comment(&comment_event("@other-bot format"), "cpp-auto-formatter");
    assert!(matches!(ignored, CommentDecision::Ignore));
    assert_eq!(ignored.terminal_exit_code(), Some(0));

    let usage = decide_comment(&comment_event("@cpp-auto-formatter deploy"), "cpp-auto-formatter");
    assert!(matches!(usage, CommentDecision::RejectUsage));
    assert_eq!(usage.terminal_exit_code(), Some(0));

    let malformed = decide_comment(
        &comment_event("@cpp-auto-formatter format \"oops"),
        "cpp-auto-formatter",
    );
    assert!(matches!(malformed, CommentDecision::RejectMalformed));
    assert_eq!(malformed.terminal_exit_code(), Some(1));

    let go = decide_comment(&comment_event("@cpp-auto-formatter format"), "cpp-auto-formatter");
    match &go {
        CommentDecision::Proceed { command } => {
            assert_eq!(command.subcommand, Subcommand::Format);
            assert!(!command.squash);
        },
        other => panic!("expected Proceed, got {:?}", other),
    }
    assert_eq!(go.terminal_exit_code(), None);
}

#[test]
fn end_to_end_push_check() {
    // A push to refs/heads/main of org/repo; two files selected by the glob
    // rules; formatting leaves a difference, so the check gate exits 1.
    let body = r#"{ "ref": "refs/heads/main", "repository": { "full_name": "org/repo" } }"#;
    let event = match decode(body, "push").unwrap() {
        WebhookEvent::Push(ev) => ev,
        other => panic!("expected a push event, got {:?}", other),
    };
    let target = resolve_for_push(&event).unwrap();
    assert_eq!(target.repository_full_name, "org/repo".to_string());
    assert_eq!(target.branch_name, "main".to_string());

    let rules = GlobRuleSet::compile(
        vec!["**/*.cpp".to_string(), "**/*.hpp".to_string()],
        vec!["vendor/**".to_string()],
    )
    .unwrap();
    let repo_files = vec![
        "src/formatted.cpp".to_string(),
        "src/unformatted.cpp".to_string(),
        "vendor/skip.cpp".to_string(),
        "docs/readme.md".to_string(),
    ];
    let selected = rules.select_files(&repo_files);
    assert_eq!(
        selected,
        vec!["src/formatted.cpp".to_string(), "src/unformatted.cpp".to_string()],
    );

    let mut state = FlowState::Resolved { target, mode: FlowMode::CheckOnly };
    state = step(state, FlowEvent::CheckoutFinished { success: true });
    state = step(state, FlowEvent::FormatFinished { success: true });
    state = step(state, FlowEvent::DiffComputed { changed: true });
    assert_eq!(run_result(state), (true, 1));
}
