//! The workflow orchestrator: an explicit state machine over the external
//! steps of a run (checkout, format, diff, commit-and-push).
//!
//! The machine only decides; the caller performs each awaited step and
//! reports its outcome as a `FlowEvent`. Every transition is one-way: there
//! is no retry inside the orchestrator, and a failed step ends the run with
//! a non-zero exit code before any later step begins.

use vstd::prelude::*;
use crate::command::BotCommand;
use crate::command::CommandError;
use crate::command::parse;
use crate::command::spec_command_of;
use crate::command::spec_grammar_ok;
use crate::command::spec_mention;
use crate::command::shell_split;
use crate::events::GitHubIssueCommentEvent;
use crate::resolve::FormatTarget;

verus! {

/// Which top-level flow a run follows once a target is resolved.
#[derive(Debug, Clone, Copy, PartialEq, Eq, Structural)]
pub enum FlowMode {
    /// Comment-triggered: format, then commit and push any changes.
    FormatAndPush,
    /// Push-triggered: format, then report whether the tree changed.
    CheckOnly,
}

/// The terminal artifact of a run.
#[derive(Debug, Clone, Copy, PartialEq, Eq, Structural)]
pub struct RunResult {
    pub files_changed: bool,
    pub exit_code: u8,
}

/// Where a run stands. Each non-terminal state awaits exactly one external
/// step.
#[derive(Debug, Clone)]
pub enum FlowState {
    /// Awaiting the shallow, single-branch checkout of the target.
    Resolved { target: FormatTarget, mode: FlowMode },
    /// Awaiting the parallel formatter pass over the selected files.
    CheckedOut { mode: FlowMode },
    /// Awaiting the working-tree diff.
    Formatted { mode: FlowMode },
    /// Awaiting the commit and push of a changed tree.
    AwaitingPush,
    /// Terminal.
    Done { result: RunResult },
}

/// The reported outcome of the external step a state awaits.
#[derive(Debug, Clone, Copy, PartialEq, Eq, Structural)]
pub enum FlowEvent {
    CheckoutFinished { success: bool },
    FormatFinished { success: bool },
    DiffComputed { changed: bool },
    PushFinished { success: bool },
}

/// Whether an event reports the step its state awaits.
pub open spec fn spec_event_fits(state: FlowState, event: FlowEvent) -> bool {
    match state {
        FlowState::Resolved { .. } => event is CheckoutFinished,
        FlowState::CheckedOut { .. } => event is FormatFinished,
        FlowState::Formatted { .. } => event is DiffComputed,
        FlowState::AwaitingPush => event is PushFinished,
        FlowState::Done { .. } => false,
    }
}

/// The transition relation. A failed step is fatal: the run ends with exit
/// code 1 and nothing later runs. A clean check exits 0; a dirty check exits
/// 1; the push flow commits only a changed tree and exits 0 either way once
/// every step succeeds.
pub open spec fn spec_step(state: FlowState, event: FlowEvent) -> FlowState {
    match (state, event) {
        (FlowState::Resolved { mode, .. }, FlowEvent::CheckoutFinished { success }) => {
            if success {
                FlowState::CheckedOut { mode }
            } else {
                FlowState::Done { result: RunResult { files_changed: false, exit_code: 1 } }
            }
        },
        (FlowState::CheckedOut { mode }, FlowEvent::FormatFinished { success }) => {
            if success {
                FlowState::Formatted { mode }
            } else {
                FlowState::Done { result: RunResult { files_changed: false, exit_code: 1 } }
            }
        },
        (FlowState::Formatted { mode }, FlowEvent::DiffComputed { changed }) => {
            match mode {
                FlowMode::CheckOnly => FlowState::Done {
                    result: RunResult {
                        files_changed: changed,
                        exit_code: if changed { 1 as u8 } else { 0 as u8 },
                    },
                },
                FlowMode::FormatAndPush => {
                    if changed {
                        FlowState::AwaitingPush
                    } else {
                        FlowState::Done {
                            result: RunResult { files_changed: false, exit_code: 0 },
                        }
                    }
                },
            }
        },
        (FlowState::AwaitingPush, FlowEvent::PushFinished { success }) => FlowState::Done {
            result: RunResult {
                files_changed: true,
                exit_code: if success { 0 as u8 } else { 1 as u8 },
            },
        },
        _ => state,
    }
}

/// Runtime check of `spec_event_fits`, for callers outside the proof.
pub fn event_fits(state: &FlowState, event: &FlowEvent) -> (r: bool)
    ensures
        r == spec_event_fits(*state, *event),
{
    match state {
        FlowState::Resolved { .. } => matches!(event, FlowEvent::CheckoutFinished { .. }),
        FlowState::CheckedOut { .. } => matches!(event, FlowEvent::FormatFinished { .. }),
        FlowState::Formatted { .. } => matches!(event, FlowEvent::DiffComputed { .. }),
        FlowState::AwaitingPush => matches!(event, FlowEvent::PushFinished { .. }),
        FlowState::Done { .. } => false,
    }
}

/// Advances the run by one reported outcome.
pub fn step(state: FlowState, event: FlowEvent) -> (next: FlowState)
    requires
        spec_event_fits(state, event),
    ensures
        next == spec_step(state, event),
{
    match (state, event) {
        (FlowState::Resolved { mode, target: _ }, FlowEvent::CheckoutFinished { success }) => {
            if success {
                FlowState::CheckedOut { mode }
            } else {
                FlowState::Done { result: RunResult { files_changed: false, exit_code: 1 } }
            }
        },
        (FlowState::CheckedOut { mode }, FlowEvent::FormatFinished { success }) => {
            if success {
                FlowState::Formatted { mode }
            } else {
                FlowState::Done { result: RunResult { files_changed: false, exit_code: 1 } }
            }
        },
        (FlowState::Formatted { mode }, FlowEvent::DiffComputed { changed }) => {
            match mode {
                FlowMode::CheckOnly => FlowState::Done {
                    result: RunResult {
                        files_changed: changed,
                        exit_code: if changed { 1 } else { 0 },
                    },
                },
                FlowMode::FormatAndPush => {
                    if changed {
                        FlowState::AwaitingPush
                    } else {
                        FlowState::Done {
                            result: RunResult { files_changed: false, exit_code: 0 },
                        }
                    }
                },
            }
        },
        (FlowState::AwaitingPush, FlowEvent::PushFinished { success }) => FlowState::Done {
            result: RunResult {
                files_changed: true,
                exit_code: if success { 0 } else { 1 },
            },
        },
        (s, _) => s,
    }
}

/// What a run makes of a sequence of reported outcomes.
pub open spec fn spec_run(state: FlowState, events: Seq<FlowEvent>) -> FlowState
    decreases events.len(),
{
    if events.len() == 0 {
        state
    } else {
        spec_run(spec_step(state, events[0]), events.skip(1))
    }
}

/// How a comment event is triaged before any external step: ignored when not
/// addressed to the bot, closed with a usage message on an unrecognized
/// command, fatal on malformed command syntax, otherwise carried forward as
/// a parsed command. Absence of a recognized command is expected and
/// frequent, so it is no error; only syntax the shell itself rejects is.
#[derive(Debug, Clone)]
pub enum CommentDecision {
    /// Not addressed to this bot: terminal, exit code 0, no work performed.
    Ignore,
    /// Addressed to the bot but not a recognized command: usage message and
    /// exit code 0, no work performed.
    RejectUsage,
    /// Addressed to the bot with malformed command syntax: exit code 1, no
    /// work performed.
    RejectMalformed,
    /// A recognized command: resolution may begin.
    Proceed { command: BotCommand },
}

impl CommentDecision {
    /// The exit code a terminal triage carries; a decision to proceed is not
    /// terminal and carries none.
    pub fn terminal_exit_code(&self) -> (c: Option<u8>)
        ensures
            self is Ignore ==> c == Some(0 as u8),
            self is RejectUsage ==> c == Some(0 as u8),
            self is RejectMalformed ==> c == Some(1 as u8),
            self is Proceed ==> c is None,
    {
        match self {
            CommentDecision::Ignore => Some(0),
            CommentDecision::RejectUsage => Some(0),
            CommentDecision::RejectMalformed => Some(1),
            CommentDecision::Proceed { .. } => None,
        }
    }
}

/// Triage of a comment event. Exactly the comments that open with the
/// mention and fit the grammar proceed; of the rest, exactly those not
/// addressed to the bot are ignored, and exactly those whose text the shell
/// cannot split are malformed.
pub fn decide_comment(event: &GitHubIssueCommentEvent, bot_name: &str) -> (d: CommentDecision)
    ensures
        d is Ignore <==> !spec_mention(bot_name@).is_prefix_of(event.comment.body@),
        d is RejectMalformed <==> (spec_mention(bot_name@).is_prefix_of(event.comment.body@)
            && shell_split(event.comment.body@) is None),
        d is RejectUsage <==> ({
            &&& spec_mention(bot_name@).is_prefix_of(event.comment.body@)
            &&& shell_split(event.comment.body@) matches Some(tokens) && !spec_grammar_ok(
                tokens,
            )
        }),
        d is Proceed <==> ({
            &&& spec_mention(bot_name@).is_prefix_of(event.comment.body@)
            &&& shell_split(event.comment.body@) matches Some(tokens) && spec_grammar_ok(tokens)
        }),
        d matches CommentDecision::Proceed { command } ==> (shell_split(event.comment.body@)
            matches Some(tokens) && command == spec_command_of(tokens)),
{
    match parse(event.comment.body.as_str(), bot_name) {
        Ok(command) => CommentDecision::Proceed { command },
        Err(CommandError::NotAddressedToBot) => CommentDecision::Ignore,
        Err(CommandError::InvalidSyntax) => CommentDecision::RejectMalformed,
        Err(CommandError::UnknownCommand { .. }) => CommentDecision::RejectUsage,
    }
}

/// The run a flow began in.
pub open spec fn spec_start(target: FormatTarget, mode: FlowMode) -> FlowState {
    FlowState::Resolved { target, mode }
}

/// The check flow's verdict is a function of the diff outcome alone: when
/// checkout and formatting succeed, a clean tree exits 0 and a changed tree
/// exits 1, on every run.
pub proof fn lemma_check_flow_verdict(target: FormatTarget, changed: bool)
    ensures
        spec_run(
            spec_start(target, FlowMode::CheckOnly),
            seq![
                FlowEvent::CheckoutFinished { success: true },
                FlowEvent::FormatFinished { success: true },
                FlowEvent::DiffComputed { changed },
            ],
        ) == (FlowState::Done {
            result: RunResult {
                files_changed: changed,
                exit_code: if changed { 1 as u8 } else { 0 as u8 },
            },
        }),
{
    reveal_with_fuel(spec_run, 5);
    let events = seq![
        FlowEvent::CheckoutFinished { success: true },
        FlowEvent::FormatFinished { success: true },
        FlowEvent::DiffComputed { changed },
    ];
    assert(events.skip(1) =~= seq![
        FlowEvent::FormatFinished { success: true },
        FlowEvent::DiffComputed { changed },
    ]);
    assert(events.skip(1).skip(1) =~= seq![FlowEvent::DiffComputed { changed }]);
    assert(events.skip(1).skip(1).skip(1) =~= Seq::<FlowEvent>::empty());
}

/// Idempotence of the check gate: a tree that formatting leaves unchanged
/// passes with exit code 0, and a second identical run over the unchanged
/// tree reaches exactly the same result.
pub proof fn lemma_check_flow_idempotent(target: FormatTarget)
    ensures
        ({
            let events = seq![
                FlowEvent::CheckoutFinished { success: true },
                FlowEvent::FormatFinished { success: true },
                FlowEvent::DiffComputed { changed: false },
            ];
            let first = spec_run(spec_start(target, FlowMode::CheckOnly), events);
            let second = spec_run(spec_start(target, FlowMode::CheckOnly), events);
            &&& first == (FlowState::Done {
                result: RunResult { files_changed: false, exit_code: 0 },
            })
            &&& second == first
        }),
{
    lemma_check_flow_verdict(target, false);
}

/// Every transition is one-way: a finished run stays finished with the same
/// result, whatever is reported afterward.
pub proof fn lemma_done_is_terminal(result: RunResult, event: FlowEvent)
    ensures
        spec_step(FlowState::Done { result }, event) == (FlowState::Done { result }),
{
}

/// A failed external step is terminal with exit code 1: no later step of the
/// run begins, whatever mode the run is in.
pub proof fn lemma_failure_is_fatal(state: FlowState, event: FlowEvent)
    requires
        spec_event_fits(state, event),
        (event matches FlowEvent::CheckoutFinished { success } && !success) || (
        event matches FlowEvent::FormatFinished { success } && !success),
    ensures
        spec_step(state, event) == (FlowState::Done {
            result: RunResult { files_changed: false, exit_code: 1 },
        }),
{
}

} // verus!
