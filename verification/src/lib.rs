//! Event-driven dispatcher and file-selection engine for a CI formatting bot.
//!
//! The library classifies inbound webhook payloads, parses bot commands out
//! of comment text, resolves the repository and branch a run operates on,
//! selects files through glob rules, and drives the format/verify workflow
//! as an explicit state machine. External tools (the formatter binary, the
//! version-control CLI, the hosting API) are collaborators driven from the
//! accompanying application crate.

mod command;
mod events;
mod flow;
mod globs;
mod json;
mod resolve;
mod strutil;

pub use command::BotCommand;
pub use command::CommandError;
pub use command::Subcommand;
pub use command::mention_prefix;
pub use command::parse;
pub use command::shell_split;
pub use command::spec_command_of;
pub use command::spec_grammar_ok;
pub use command::spec_mention;

pub use events::DecodeError;
pub use events::FieldPath;
pub use events::GitHubEventRepository;
pub use events::GitHubIssue;
pub use events::GitHubIssueComment;
pub use events::GitHubIssueCommentEvent;
pub use events::GitHubIssueCreate;
pub use events::GitHubIssuePullRequest;
pub use events::GitHubPullRequest;
pub use events::GitHubPullRequestBranch;
pub use events::GitHubPushEvent;
pub use events::GitHubRepository;
pub use events::RawIssueCommentFields;
pub use events::RawPushFields;
pub use events::WebhookEvent;
pub use events::build_issue_comment_event;
pub use events::build_push_event;
pub use events::decode;
pub use events::spec_build_issue_comment;
pub use events::spec_build_push;
pub use events::spec_comment_field_error;
pub use events::spec_push_field_error;

pub use flow::CommentDecision;
pub use flow::FlowEvent;
pub use flow::FlowMode;
pub use flow::FlowState;
pub use flow::RunResult;
pub use flow::decide_comment;
pub use flow::event_fits;
pub use flow::lemma_check_flow_idempotent;
pub use flow::lemma_check_flow_verdict;
pub use flow::lemma_done_is_terminal;
pub use flow::lemma_failure_is_fatal;
pub use flow::spec_event_fits;
pub use flow::spec_run;
pub use flow::spec_start;
pub use flow::spec_step;
pub use flow::step;

pub use globs::GlobPattern;
pub use globs::GlobRuleSet;
pub use globs::glob_match;
pub use globs::glob_pattern_ok;
pub use globs::lemma_exclude_dominates;
pub use globs::spec_first_offender;
pub use globs::spec_matches_any;
pub use globs::spec_selected;

pub use json::json_comment_action;
pub use json::json_comment_body;
pub use json::json_doc_ok;
pub use json::json_issue_present;
pub use json::json_pull_request_present;
pub use json::json_pull_request_url;
pub use json::json_push_ref;
pub use json::json_repo_full_name;

pub use resolve::FormatTarget;
pub use resolve::ResolveError;
pub use resolve::auth_header_value;
pub use resolve::clone_url;
pub use resolve::comment_pull_request_url;
pub use resolve::commit_author_email;
pub use resolve::ref_to_branch;
pub use resolve::resolve_fetched_pull_request;
pub use resolve::resolve_for_push;
pub use resolve::resolve_from_pull_request;
pub use resolve::spec_branch_of;
pub use resolve::spec_heads_prefix;

pub use strutil::str_eq;
pub use strutil::str_starts_with;
