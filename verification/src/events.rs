//! Webhook payload shapes and the payload decoder.
//!
//! An inbound event arrives as a JSON body plus an out-of-band event-kind
//! discriminator. `decode` turns the pair into one closed tagged union,
//! `WebhookEvent`; the shape rules (which members must be present, which are
//! optional) are stated exactly by `spec_build_issue_comment` and
//! `spec_build_push` and proved of the assembly functions.

use vstd::prelude::*;
use vstd::string::*;
use crate::json::json_comment_action;
use crate::json::json_comment_body;
use crate::json::json_doc_ok;
use crate::json::json_issue_present;
use crate::json::json_pull_request_present;
use crate::json::json_pull_request_url;
use crate::json::json_push_ref;
use crate::json::json_repo_full_name;
use crate::json::member_comment_action;
use crate::json::member_comment_body;
use crate::json::member_issue_present;
use crate::json::member_pull_request_present;
use crate::json::member_pull_request_url;
use crate::json::member_push_ref;
use crate::json::member_repo_full_name;
use crate::json::parse_json;
use crate::strutil::str_eq;

verus! {

/// Repository identification carried inline by an event.
#[derive(Debug, Clone)]
pub struct GitHubEventRepository {
    pub full_name: String,
}

/// The comment that triggered an `issue_comment` event.
#[derive(Debug, Clone)]
pub struct GitHubIssueComment {
    pub body: String,
}

/// Link present on an issue exactly when the issue is a pull request.
#[derive(Debug, Clone)]
pub struct GitHubIssuePullRequest {
    pub url: String,
}

/// The issue a comment was left on. `pull_request` is absent when the issue
/// is not a pull request, a terminal condition for the command flow.
#[derive(Debug, Clone)]
pub struct GitHubIssue {
    pub pull_request: Option<GitHubIssuePullRequest>,
}

/// An `issue_comment` webhook payload.
#[derive(Debug, Clone)]
pub struct GitHubIssueCommentEvent {
    pub action: String,
    pub comment: GitHubIssueComment,
    pub issue: GitHubIssue,
    pub repository: GitHubEventRepository,
}

/// A `push` webhook payload.
#[derive(Debug, Clone)]
pub struct GitHubPushEvent {
    pub git_ref: String,
    pub repository: GitHubEventRepository,
}

/// Repository identification inside a fetched pull-request resource.
#[derive(Debug, Clone)]
pub struct GitHubRepository {
    pub full_name: String,
}

/// The head branch of a fetched pull-request resource.
#[derive(Debug, Clone)]
pub struct GitHubPullRequestBranch {
    pub git_ref: String,
    pub repo: GitHubRepository,
}

/// A pull-request resource fetched from the hosting API.
#[derive(Debug, Clone)]
pub struct GitHubPullRequest {
    pub comments_url: String,
    pub head: GitHubPullRequestBranch,
}

/// Body of a comment the bot posts back to an issue.
#[derive(Debug, Clone)]
pub struct GitHubIssueCreate {
    pub body: String,
}

/// The closed set of event shapes the dispatcher understands.
#[derive(Debug, Clone)]
pub enum WebhookEvent {
    IssueComment(GitHubIssueCommentEvent),
    Push(GitHubPushEvent),
}

/// The payload member a structural failure points at.
#[derive(Debug, Clone, Copy, PartialEq, Eq, Structural)]
pub enum FieldPath {
    Document,
    Action,
    CommentBody,
    Issue,
    PullRequestUrl,
    RepositoryFullName,
    GitRef,
}

/// Why a payload was rejected.
#[derive(Debug, Clone, Copy, PartialEq, Eq, Structural)]
pub enum DecodeError {
    UnsupportedEventKind,
    MalformedPayload { field_path: FieldPath },
}

impl FieldPath {
    /// The member's path in the payload, for diagnostics.
    pub fn as_text(&self) -> (r: String)
        ensures
            self is Document ==> r@ == ""@,
            self is Action ==> r@ == "action"@,
            self is CommentBody ==> r@ == "comment.body"@,
            self is Issue ==> r@ == "issue"@,
            self is PullRequestUrl ==> r@ == "issue.pull_request.url"@,
            self is RepositoryFullName ==> r@ == "repository.full_name"@,
            self is GitRef ==> r@ == "ref"@,
    {
        match self {
            FieldPath::Document => String::from_str(""),
            FieldPath::Action => String::from_str("action"),
            FieldPath::CommentBody => String::from_str("comment.body"),
            FieldPath::Issue => String::from_str("issue"),
            FieldPath::PullRequestUrl => String::from_str("issue.pull_request.url"),
            FieldPath::RepositoryFullName => String::from_str("repository.full_name"),
            FieldPath::GitRef => String::from_str("ref"),
        }
    }
}

/// The members pulled out of an `issue_comment` document: `None` stands for
/// a member that is missing or not a string.
pub struct RawIssueCommentFields {
    pub action: Option<String>,
    pub comment_body: Option<String>,
    pub issue_present: bool,
    pub pull_request_present: bool,
    pub pull_request_url: Option<String>,
    pub repository_full_name: Option<String>,
}

/// The members pulled out of a `push` document.
pub struct RawPushFields {
    pub git_ref: Option<String>,
    pub repository_full_name: Option<String>,
}

/// What assembling an `issue_comment` event from its members yields: the
/// event when every required member is present, else the first missing
/// member in document order.
pub open spec fn spec_build_issue_comment(f: RawIssueCommentFields) -> Result<
    GitHubIssueCommentEvent,
    DecodeError,
> {
    if f.action is None {
        Err(DecodeError::MalformedPayload { field_path: FieldPath::Action })
    } else if f.comment_body is None {
        Err(DecodeError::MalformedPayload { field_path: FieldPath::CommentBody })
    } else if !f.issue_present {
        Err(DecodeError::MalformedPayload { field_path: FieldPath::Issue })
    } else if f.pull_request_present && f.pull_request_url is None {
        Err(DecodeError::MalformedPayload { field_path: FieldPath::PullRequestUrl })
    } else if f.repository_full_name is None {
        Err(DecodeError::MalformedPayload { field_path: FieldPath::RepositoryFullName })
    } else {
        Ok(
            GitHubIssueCommentEvent {
                action: f.action->0,
                comment: GitHubIssueComment { body: f.comment_body->0 },
                issue: GitHubIssue {
                    pull_request: if f.pull_request_present {
                        Some(GitHubIssuePullRequest { url: f.pull_request_url->0 })
                    } else {
                        None
                    },
                },
                repository: GitHubEventRepository { full_name: f.repository_full_name->0 },
            },
        )
    }
}

/// What assembling a `push` event from its members yields.
pub open spec fn spec_build_push(f: RawPushFields) -> Result<GitHubPushEvent, DecodeError> {
    if f.git_ref is None {
        Err(DecodeError::MalformedPayload { field_path: FieldPath::GitRef })
    } else if f.repository_full_name is None {
        Err(DecodeError::MalformedPayload { field_path: FieldPath::RepositoryFullName })
    } else {
        Ok(
            GitHubPushEvent {
                git_ref: f.git_ref->0,
                repository: GitHubEventRepository { full_name: f.repository_full_name->0 },
            },
        )
    }
}

/// Assembles an `issue_comment` event from its extracted members.
pub fn build_issue_comment_event(f: RawIssueCommentFields) -> (r: Result<
    GitHubIssueCommentEvent,
    DecodeError,
>)
    ensures
        r == spec_build_issue_comment(f),
{
    let RawIssueCommentFields {
        action,
        comment_body,
        issue_present,
        pull_request_present,
        pull_request_url,
        repository_full_name,
    } = f;
    let action = match action {
        Some(a) => a,
        None => {
            return Err(DecodeError::MalformedPayload { field_path: FieldPath::Action });
        },
    };
    let body = match comment_body {
        Some(b) => b,
        None => {
            return Err(DecodeError::MalformedPayload { field_path: FieldPath::CommentBody });
        },
    };
    if !issue_present {
        return Err(DecodeError::MalformedPayload { field_path: FieldPath::Issue });
    }
    let pull_request = if pull_request_present {
        match pull_request_url {
            Some(url) => Some(GitHubIssuePullRequest { url }),
            None => {
                return Err(
                    DecodeError::MalformedPayload { field_path: FieldPath::PullRequestUrl },
                );
            },
        }
    } else {
        None
    };
    let full_name = match repository_full_name {
        Some(n) => n,
        None => {
            return Err(
                DecodeError::MalformedPayload { field_path: FieldPath::RepositoryFullName },
            );
        },
    };
    Ok(
        GitHubIssueCommentEvent {
            action,
            comment: GitHubIssueComment { body },
            issue: GitHubIssue { pull_request },
            repository: GitHubEventRepository { full_name },
        },
    )
}

/// Assembles a `push` event from its extracted members.
pub fn build_push_event(f: RawPushFields) -> (r: Result<GitHubPushEvent, DecodeError>)
    ensures
        r == spec_build_push(f),
{
    let RawPushFields { git_ref, repository_full_name } = f;
    let git_ref = match git_ref {
        Some(g) => g,
        None => {
            return Err(DecodeError::MalformedPayload { field_path: FieldPath::GitRef });
        },
    };
    let full_name = match repository_full_name {
        Some(n) => n,
        None => {
            return Err(
                DecodeError::MalformedPayload { field_path: FieldPath::RepositoryFullName },
            );
        },
    };
    Ok(GitHubPushEvent { git_ref, repository: GitHubEventRepository { full_name } })
}

/// The first missing required member of a push document, in document
/// order, over the named member lookups.
pub open spec fn spec_push_field_error(text: Seq<char>) -> Option<DecodeError> {
    if json_push_ref(text) is None {
        Some(DecodeError::MalformedPayload { field_path: FieldPath::GitRef })
    } else if json_repo_full_name(text) is None {
        Some(DecodeError::MalformedPayload { field_path: FieldPath::RepositoryFullName })
    } else {
        None
    }
}

/// The first missing required member of an `issue_comment` document, in
/// document order, over the named member lookups.
pub open spec fn spec_comment_field_error(text: Seq<char>) -> Option<DecodeError> {
    if json_comment_action(text) is None {
        Some(DecodeError::MalformedPayload { field_path: FieldPath::Action })
    } else if json_comment_body(text) is None {
        Some(DecodeError::MalformedPayload { field_path: FieldPath::CommentBody })
    } else if !json_issue_present(text) {
        Some(DecodeError::MalformedPayload { field_path: FieldPath::Issue })
    } else if json_pull_request_present(text) && json_pull_request_url(text) is None {
        Some(DecodeError::MalformedPayload { field_path: FieldPath::PullRequestUrl })
    } else if json_repo_full_name(text) is None {
        Some(DecodeError::MalformedPayload { field_path: FieldPath::RepositoryFullName })
    } else {
        None
    }
}

/// Decodes a webhook body into the event shape named by the event-kind
/// discriminator. An unknown kind is rejected as such; a text that is not
/// well-formed JSON is rejected pointing at the document; for a well-formed
/// document the result is pinned, member by member, to the named lookups on
/// the text, so decoding the same text twice yields the same result.
pub fn decode(raw: &str, kind: &str) -> (r: Result<WebhookEvent, DecodeError>)
    ensures
        (kind@ != "issue_comment"@ && kind@ != "push"@) <==> r == Err::<
            WebhookEvent,
            DecodeError,
        >(DecodeError::UnsupportedEventKind),
        (kind@ == "issue_comment"@ || kind@ == "push"@) && !json_doc_ok(raw@) ==> r == Err::<
            WebhookEvent,
            DecodeError,
        >(DecodeError::MalformedPayload { field_path: FieldPath::Document }),
        r is Ok && r->Ok_0 is IssueComment ==> kind@ == "issue_comment"@,
        r is Ok && r->Ok_0 is Push ==> kind@ == "push"@,
        kind@ == "push"@ && json_doc_ok(raw@) ==> match r {
            Ok(ev) => {
                &&& ev is Push
                &&& spec_push_field_error(raw@) is None
                &&& Some(ev->Push_0.git_ref@) == json_push_ref(raw@)
                &&& Some(ev->Push_0.repository.full_name@) == json_repo_full_name(raw@)
            },
            Err(e) => Some(e) == spec_push_field_error(raw@),
        },
        kind@ == "issue_comment"@ && json_doc_ok(raw@) ==> match r {
            Ok(ev) => {
                &&& ev is IssueComment
                &&& spec_comment_field_error(raw@) is None
                &&& Some(ev->IssueComment_0.action@) == json_comment_action(raw@)
                &&& Some(ev->IssueComment_0.comment.body@) == json_comment_body(raw@)
                &&& json_issue_present(raw@)
                &&& (ev->IssueComment_0.issue.pull_request is Some <==> json_pull_request_present(
                    raw@,
                ))
                &&& (json_pull_request_present(raw@) ==> Some(
                    ev->IssueComment_0.issue.pull_request->0.url@,
                ) == json_pull_request_url(raw@))
                &&& Some(ev->IssueComment_0.repository.full_name@) == json_repo_full_name(raw@)
            },
            Err(e) => Some(e) == spec_comment_field_error(raw@),
        },
{
    proof {
        reveal_strlit("issue_comment");
        reveal_strlit("push");
        assert("issue_comment"@.len() == 13);
        assert("push"@.len() == 4);
        assert("issue_comment"@ != "push"@);
    }
    if str_eq(kind, "issue_comment") {
        let doc = match parse_json(raw) {
            Some(d) => d,
            None => {
                return Err(DecodeError::MalformedPayload { field_path: FieldPath::Document });
            },
        };
        let fields = RawIssueCommentFields {
            action: member_comment_action(&doc),
            comment_body: member_comment_body(&doc),
            issue_present: member_issue_present(&doc),
            pull_request_present: member_pull_request_present(&doc),
            pull_request_url: member_pull_request_url(&doc),
            repository_full_name: member_repo_full_name(&doc),
        };
        match build_issue_comment_event(fields) {
            Ok(ev) => Ok(WebhookEvent::IssueComment(ev)),
            Err(e) => Err(e),
        }
    } else if str_eq(kind, "push") {
        let doc = match parse_json(raw) {
            Some(d) => d,
            None => {
                return Err(DecodeError::MalformedPayload { field_path: FieldPath::Document });
            },
        };
        let fields = RawPushFields {
            git_ref: member_push_ref(&doc),
            repository_full_name: member_repo_full_name(&doc),
        };
        match build_push_event(fields) {
            Ok(ev) => Ok(WebhookEvent::Push(ev)),
            Err(e) => Err(e),
        }
    } else {
        Err(DecodeError::UnsupportedEventKind)
    }
}

} // verus!
