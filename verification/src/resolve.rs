//! Resolving the concrete (repository, branch) target a run checks out,
//! and the strings handed to the external collaborators for that target.

use vstd::prelude::*;
use vstd::string::*;
use crate::events::GitHubIssue;
use crate::events::GitHubPullRequest;
use crate::events::GitHubPushEvent;
use crate::strutil::str_starts_with;

verus! {

/// The checkout identity of a run: created once by resolution, immutable
/// afterward.
#[derive(Debug, Clone)]
pub struct FormatTarget {
    pub repository_full_name: String,
    pub branch_name: String,
}

/// Why resolution failed. All three are fatal for the run.
#[derive(Debug, Clone, Copy, PartialEq, Eq, Structural)]
pub enum ResolveError {
    NotAPullRequest,
    UpstreamUnavailable,
    UnexpectedRefFormat,
}

/// The prefix every branch ref carries.
pub open spec fn spec_heads_prefix() -> Seq<char> {
    "refs/heads/"@
}

/// The branch a ref denotes: its text after `refs/heads/`.
pub open spec fn spec_branch_of(git_ref: Seq<char>) -> Seq<char> {
    git_ref.skip(spec_heads_prefix().len() as int)
}

/// Strips the required `refs/heads/` prefix from a ref. A ref of any other
/// shape is an invariant violation, never silently accepted.
pub fn ref_to_branch(git_ref: &str) -> (r: Result<String, ResolveError>)
    ensures
        spec_heads_prefix().is_prefix_of(git_ref@) ==> r is Ok && r->Ok_0@ == spec_branch_of(
            git_ref@,
        ),
        !spec_heads_prefix().is_prefix_of(git_ref@) ==> r == Err::<String, ResolveError>(
            ResolveError::UnexpectedRefFormat,
        ),
{
    let prefix = "refs/heads/";
    if str_starts_with(git_ref, prefix) {
        let start = prefix.unicode_len();
        let end = git_ref.unicode_len();
        let branch = git_ref.substring_char(start, end);
        assert(branch@ =~= spec_branch_of(git_ref@));
        Ok(branch.to_owned())
    } else {
        Err(ResolveError::UnexpectedRefFormat)
    }
}

/// Resolves a push event: repository and ref are already inline, so only the
/// ref needs stripping.
pub fn resolve_for_push(event: &GitHubPushEvent) -> (r: Result<FormatTarget, ResolveError>)
    ensures
        spec_heads_prefix().is_prefix_of(event.git_ref@) ==> r is Ok
            && r->Ok_0.repository_full_name@ == event.repository.full_name@
            && r->Ok_0.branch_name@ == spec_branch_of(event.git_ref@),
        !spec_heads_prefix().is_prefix_of(event.git_ref@) ==> r == Err::<
            FormatTarget,
            ResolveError,
        >(ResolveError::UnexpectedRefFormat),
{
    match ref_to_branch(event.git_ref.as_str()) {
        Ok(branch_name) => Ok(
            FormatTarget {
                repository_full_name: event.repository.full_name.clone(),
                branch_name,
            },
        ),
        Err(e) => Err(e),
    }
}

/// First half of comment-flow resolution: the issue must be a pull request;
/// its API URL is what the caller then fetches.
pub fn comment_pull_request_url(issue: &GitHubIssue) -> (r: Result<String, ResolveError>)
    ensures
        issue.pull_request is Some ==> r is Ok && r->Ok_0@ == issue.pull_request->0.url@,
        issue.pull_request is None ==> r == Err::<String, ResolveError>(
            ResolveError::NotAPullRequest,
        ),
{
    match &issue.pull_request {
        Some(pr) => Ok(pr.url.clone()),
        None => Err(ResolveError::NotAPullRequest),
    }
}

/// Second half of comment-flow resolution: the fetched pull-request resource
/// names the head repository and branch ref; pull-request heads are always
/// branches, so any other ref shape is fatal.
pub fn resolve_from_pull_request(pr: &GitHubPullRequest) -> (r: Result<
    FormatTarget,
    ResolveError,
>)
    ensures
        spec_heads_prefix().is_prefix_of(pr.head.git_ref@) ==> r is Ok
            && r->Ok_0.repository_full_name@ == pr.head.repo.full_name@
            && r->Ok_0.branch_name@ == spec_branch_of(pr.head.git_ref@),
        !spec_heads_prefix().is_prefix_of(pr.head.git_ref@) ==> r == Err::<
            FormatTarget,
            ResolveError,
        >(ResolveError::UnexpectedRefFormat),
{
    match ref_to_branch(pr.head.git_ref.as_str()) {
        Ok(branch_name) => Ok(
            FormatTarget {
                repository_full_name: pr.head.repo.full_name.clone(),
                branch_name,
            },
        ),
        Err(e) => Err(e),
    }
}

/// Classifies the outcome of the pull-request fetch: a fetch that brought
/// nothing back is the upstream's failure; a fetched resource resolves to
/// its head repository and branch.
pub fn resolve_fetched_pull_request(fetched: Option<&GitHubPullRequest>) -> (r: Result<
    FormatTarget,
    ResolveError,
>)
    ensures
        fetched is None ==> r == Err::<FormatTarget, ResolveError>(
            ResolveError::UpstreamUnavailable,
        ),
        fetched is Some && spec_heads_prefix().is_prefix_of(fetched->0.head.git_ref@) ==> r
            is Ok && r->Ok_0.repository_full_name@ == fetched->0.head.repo.full_name@
            && r->Ok_0.branch_name@ == spec_branch_of(fetched->0.head.git_ref@),
        fetched is Some && !spec_heads_prefix().is_prefix_of(fetched->0.head.git_ref@) ==> r
            == Err::<FormatTarget, ResolveError>(ResolveError::UnexpectedRefFormat),
{
    match fetched {
        Some(pr) => resolve_from_pull_request(pr),
        None => Err(ResolveError::UpstreamUnavailable),
    }
}

/// The authenticated clone URL for a target repository.
pub fn clone_url(token: &str, repository_full_name: &str) -> (r: String)
    ensures
        r@ == "https://x-access-token:"@ + token@ + "@github.com/"@ + repository_full_name@
            + ".git"@,
{
    let mut url = String::from_str("https://x-access-token:");
    url.append(token);
    url.append("@github.com/");
    url.append(repository_full_name);
    url.append(".git");
    url
}

/// The commit-author e-mail derived from the bot's name.
pub fn commit_author_email(bot_name: &str) -> (r: String)
    ensures
        r@ == bot_name@ + "@automation.bot"@,
{
    let mut email = String::from_str(bot_name);
    email.append("@automation.bot");
    email
}

/// The authorization header value for the hosting API.
pub fn auth_header_value(token: &str) -> (r: String)
    ensures
        r@ == "token "@ + token@,
{
    let mut header = String::from_str("token ");
    header.append(token);
    header
}

} // verus!
