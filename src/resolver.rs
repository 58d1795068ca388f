//! Deciding, one line at a time, which username replaces its email address.
//!
//! The caller runs the outside work that a step asks for (a cache lookup, a
//! user search, a pull-request lookup, a cache write) and hands its answer to
//! the next step.
use vstd::prelude::*;
use crate::emails::{emails_in, find_emails};
use crate::pull_request::{find_pull_requests, pull_requests_in, PullRequest};
use crate::text::{after_first, drop_tail, has_suffix, replace_all, replace_every, split_after_first, strip_suffix};
use crate::user::GithubUser;

verus! {

/// Why a line, or a whole run, cannot go on.
#[derive(Debug, Clone, Copy, PartialEq, Eq, Structural)]
pub enum ResolveError {
    /// The regex engine refused one of the built-in patterns.
    InvalidPattern,
    /// A line holds more than one email address.
    MultipleEmails,
    /// A user search found more than one account for one email address.
    MultipleUsers,
    /// A pull-request link whose number could not be read.
    InvalidPullRequest,
}

/// The domain of the addresses that the platform hands out to hide a user's email.
pub const NOREPLY_SUFFIX: &'static str = "@users.noreply.github.com";

/// The marker at the end of an automated account's name.
pub const BOT_SUFFIX: &'static str = "[bot]";

/// How a line ends up.
#[derive(Debug)]
pub enum LineOutcome {
    /// The email address, if any, was replaced by a mention.
    Replaced { output: String },
    /// No username was found: the line is unchanged and `email` is reported.
    Unresolved { output: String, email: String },
}

/// A line whose single email address is still to be resolved.
#[derive(Debug)]
pub struct PendingLine {
    pub line: String,
    pub email: String,
}

/// What the caller does next for a line.
#[derive(Debug)]
pub enum Step {
    /// The line is done.
    Finished(LineOutcome),
    /// Look the email up in the cache, then call `with_cached`.
    LookupCache(PendingLine),
    /// Search users by the email, then call `with_search_results`.
    SearchUsers(PendingLine),
    /// Fetch the author of the pull request, then call `with_author`.
    FetchAuthor(PendingLine, PullRequest),
    /// Write the identity to the cache; the line is then done.
    Remember(GithubUser, LineOutcome),
}

/// What a `LineOutcome` stands for.
pub enum OutcomeModel {
    Replaced(Seq<char>),
    Unresolved(Seq<char>, Seq<char>),
}

/// What a `Step` stands for: lines, email addresses and usernames as character
/// sequences, a pull request as owner, repository and number.
pub enum StepModel {
    Finished(OutcomeModel),
    LookupCache(Seq<char>, Seq<char>),
    SearchUsers(Seq<char>, Seq<char>),
    FetchAuthor(Seq<char>, Seq<char>, (Seq<char>, Seq<char>, int)),
    Remember(Seq<char>, Seq<char>, OutcomeModel),
}

impl View for LineOutcome {
    type V = OutcomeModel;

    open spec fn view(&self) -> OutcomeModel {
        match self {
            LineOutcome::Replaced { output } => OutcomeModel::Replaced(output@),
            LineOutcome::Unresolved { output, email } => OutcomeModel::Unresolved(output@, email@),
        }
    }
}

impl View for Step {
    type V = StepModel;

    open spec fn view(&self) -> StepModel {
        match self {
            Step::Finished(o) => StepModel::Finished(o@),
            Step::LookupCache(p) => StepModel::LookupCache(p.line@, p.email@),
            Step::SearchUsers(p) => StepModel::SearchUsers(p.line@, p.email@),
            Step::FetchAuthor(p, pr) => StepModel::FetchAuthor(p.line@, p.email@, pr@),
            Step::Remember(u, o) => StepModel::Remember(u.email@, u.username@, o@),
        }
    }
}

/// What a step, or the error instead of it, stands for.
pub open spec fn step_result_view(r: Result<Step, ResolveError>) -> Result<StepModel, ResolveError> {
    match r {
        Ok(s) => Ok(s@),
        Err(e) => Err(e),
    }
}

/// The username that a no-reply address names: nothing when `email` is not a
/// no-reply address, `Some(None)` when it is one without the `+` separator.
pub open spec fn noreply_username(email: Seq<char>) -> Option<Option<Seq<char>>> {
    if !has_suffix(email, NOREPLY_SUFFIX@) {
        None
    } else {
        match after_first(drop_tail(email, NOREPLY_SUFFIX@.len() as int), '+') {
            None => Some(None),
            Some(name) => Some(
                Some(
                    if has_suffix(name, BOT_SUFFIX@) {
                        drop_tail(name, BOT_SUFFIX@.len() as int)
                    } else {
                        name
                    },
                ),
            ),
        }
    }
}

/// `line` with each occurrence of `email` replaced by `@username`.
pub open spec fn mention(line: Seq<char>, email: Seq<char>, username: Seq<char>) -> Seq<char> {
    replace_all(line, email, seq!['@'] + username)
}

/// The first step for a line.
pub open spec fn first_step(line: Seq<char>) -> Result<StepModel, ResolveError> {
    match emails_in(line) {
        None => Err(ResolveError::InvalidPattern),
        Some(es) => if es.len() == 0 {
            Ok(StepModel::Finished(OutcomeModel::Replaced(line)))
        } else if es.len() > 1 {
            Err(ResolveError::MultipleEmails)
        } else {
            match noreply_username(es[0]) {
                None => Ok(StepModel::LookupCache(line, es[0])),
                Some(None) => Ok(StepModel::Finished(OutcomeModel::Unresolved(line, es[0]))),
                Some(Some(u)) => Ok(StepModel::Finished(OutcomeModel::Replaced(mention(line, es[0], u)))),
            }
        },
    }
}

/// The step after the cache answered.
pub open spec fn step_after_cache(line: Seq<char>, email: Seq<char>, cached: Option<Seq<char>>) -> StepModel {
    match cached {
        Some(u) => StepModel::Finished(OutcomeModel::Replaced(mention(line, email, u))),
        None => StepModel::SearchUsers(line, email),
    }
}

/// The step after a user search answered with `logins` out of `total` accounts.
pub open spec fn step_after_search(
    line: Seq<char>,
    email: Seq<char>,
    logins: Seq<Seq<char>>,
    total: int,
) -> Result<StepModel, ResolveError> {
    if total > 1 || logins.len() > 1 {
        Err(ResolveError::MultipleUsers)
    } else if logins.len() == 1 {
        Ok(StepModel::Remember(email, logins[0], OutcomeModel::Replaced(mention(line, email, logins[0]))))
    } else {
        match pull_requests_in(line) {
            Err(e) => Err(e),
            Ok(prs) => if prs.len() == 0 {
                Ok(StepModel::Finished(OutcomeModel::Unresolved(line, email)))
            } else {
                Ok(StepModel::FetchAuthor(line, email, prs.last()))
            },
        }
    }
}

/// The step after the pull request's author was asked for.
pub open spec fn step_after_author(line: Seq<char>, email: Seq<char>, author: Option<Seq<char>>) -> StepModel {
    match author {
        Some(u) => StepModel::Remember(email, u, OutcomeModel::Replaced(mention(line, email, u))),
        None => StepModel::Finished(OutcomeModel::Unresolved(line, email)),
    }
}

fn mention_of(line: &str, email: &str, username: &str) -> (r: String)
    ensures
        r@ == mention(line@, email@, username@),
{
    let mut at = String::from_str("@");
    proof {
        reveal_strlit("@");
    }
    at.append(username);
    assert(at@ =~= seq!['@'] + username@);
    replace_every(line, email, at.as_str())
}

/// The username that a no-reply address names, as `noreply_username` says.
pub fn noreply_user(email: &str) -> (r: Option<Option<String>>)
    ensures
        r.deep_view() == noreply_username(email@),
{
    match strip_suffix(email, NOREPLY_SUFFIX) {
        None => None,
        Some(prefix) => match split_after_first(prefix.as_str(), '+') {
            None => Some(None),
            Some(name) => match strip_suffix(name.as_str(), BOT_SUFFIX) {
                Some(bare) => Some(Some(bare)),
                None => Some(Some(name)),
            },
        },
    }
}

/// Starts on one line: finds its email address and resolves what needs no
/// outside work.
pub fn resolve_line(line: String) -> (r: Result<Step, ResolveError>)
    ensures
        step_result_view(r) == first_step(line@),
{
    let emails = match find_emails(line.as_str()) {
        Ok(v) => v,
        Err(e) => { return Err(e); },
    };
    if emails.len() == 0 {
        return Ok(Step::Finished(LineOutcome::Replaced { output: line }));
    }
    if emails.len() > 1 {
        return Err(ResolveError::MultipleEmails);
    }
    let email = emails[0].clone();
    assert(email@ == emails.deep_view()[0]);
    match noreply_user(email.as_str()) {
        None => Ok(Step::LookupCache(PendingLine { line, email })),
        Some(None) => Ok(Step::Finished(LineOutcome::Unresolved { output: line, email })),
        Some(Some(username)) => {
            let output = mention_of(line.as_str(), email.as_str(), username.as_str());
            Ok(Step::Finished(LineOutcome::Replaced { output }))
        },
    }
}

impl PendingLine {
    /// Goes on once the cache answered for the email.
    pub fn with_cached(self, cached: Option<String>) -> (r: Step)
        ensures
            r@ == step_after_cache(self.line@, self.email@, cached.deep_view()),
    {
        match cached {
            Some(username) => {
                let output = mention_of(self.line.as_str(), self.email.as_str(), username.as_str());
                Step::Finished(LineOutcome::Replaced { output })
            },
            None => Step::SearchUsers(self),
        }
    }

    /// Goes on once a user search answered with `logins`, out of `total_count`
    /// accounts in all.
    pub fn with_search_results(self, logins: Vec<String>, total_count: i64) -> (r: Result<Step, ResolveError>)
        ensures
            step_result_view(r) == step_after_search(
                self.line@,
                self.email@,
                logins.deep_view(),
                total_count as int,
            ),
    {
        if total_count > 1 || logins.len() > 1 {
            return Err(ResolveError::MultipleUsers);
        }
        if logins.len() == 1 {
            let username = logins[0].clone();
            let output = mention_of(self.line.as_str(), self.email.as_str(), username.as_str());
            return Ok(Step::Remember(GithubUser::new(self.email, username), LineOutcome::Replaced { output }));
        }
        let mut prs = match find_pull_requests(self.line.as_str()) {
            Ok(v) => v,
            Err(e) => { return Err(e); },
        };
        // The platform's merge message puts the merged pull request last, also
        // after the earlier links that a revert's title carries.
        match prs.pop() {
            None => Ok(Step::Finished(LineOutcome::Unresolved { output: self.line, email: self.email })),
            Some(last) => Ok(Step::FetchAuthor(self, last)),
        }
    }

    /// Goes on once the pull request's author was asked for; `None` when the
    /// platform has no author for it.
    pub fn with_author(self, author: Option<String>) -> (r: Step)
        ensures
            r@ == step_after_author(self.line@, self.email@, author.deep_view()),
    {
        match author {
            Some(username) => {
                let output = mention_of(self.line.as_str(), self.email.as_str(), username.as_str());
                Step::Remember(GithubUser::new(self.email, username), LineOutcome::Replaced { output })
            },
            None => Step::Finished(LineOutcome::Unresolved { output: self.line, email: self.email }),
        }
    }
}

} // verus!
