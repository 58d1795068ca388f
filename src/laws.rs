//! Properties of the resolution of a line, proved over the steps' spec functions.
use vstd::prelude::*;
use crate::emails::emails_in;
use crate::pull_request::pull_requests_in;
use crate::resolver::{
    first_step, mention, noreply_username, step_after_author, step_after_cache, step_after_search,
    OutcomeModel, ResolveError, StepModel, BOT_SUFFIX, NOREPLY_SUFFIX,
};
use crate::text::{after_first, drop_tail, has_suffix};

verus! {

/// What the cache answers for `email`.
pub open spec fn cache_lookup(cache: Map<Seq<char>, Seq<char>>, email: Seq<char>) -> Option<Seq<char>> {
    if cache.dom().contains(email) {
        Some(cache[email])
    } else {
        None
    }
}

proof fn lemma_after_first_concat(head: Seq<char>, c: char, tail: Seq<char>)
    requires
        forall|i: int| 0 <= i < head.len() ==> head[i] != c,
    ensures
        after_first(head + seq![c] + tail, c) == Some(tail),
    decreases head.len(),
{
    let s = head + seq![c] + tail;
    if head.len() == 0 {
        assert(s.subrange(1, s.len() as int) =~= tail);
    } else {
        let rest = head.subrange(1, head.len() as int);
        assert(s.subrange(1, s.len() as int) =~= rest + seq![c] + tail);
        lemma_after_first_concat(rest, c, tail);
    }
}

proof fn lemma_noreply_parts(id: Seq<char>, name: Seq<char>)
    requires
        forall|i: int| 0 <= i < id.len() ==> id[i] != '+',
    ensures
        noreply_username(id + seq!['+'] + name + NOREPLY_SUFFIX@) == Some(
            Some(
                if has_suffix(name, BOT_SUFFIX@) {
                    drop_tail(name, BOT_SUFFIX@.len() as int)
                } else {
                    name
                },
            ),
        ),
{
    let e = id + seq!['+'] + name + NOREPLY_SUFFIX@;
    let k = NOREPLY_SUFFIX@.len() as int;
    assert(e.subrange(e.len() - k, e.len() as int) =~= NOREPLY_SUFFIX@);
    assert(drop_tail(e, k) =~= id + seq!['+'] + name);
    lemma_after_first_concat(id, '+', name);
}

/// A line without an email address comes out as it went in, with no outside work.
pub proof fn line_without_email_passes_through(line: Seq<char>)
    requires
        emails_in(line) == Some(Seq::<Seq<char>>::empty()),
    ensures
        first_step(line) == Ok::<_, ResolveError>(StepModel::Finished(OutcomeModel::Replaced(line))),
{
}

/// A line whose one email address is a no-reply address `<id>+<name>@users.noreply.github.com`
/// gets `@<name>` in its place, with no cache or remote access.
pub proof fn noreply_address_names_its_user(line: Seq<char>, id: Seq<char>, name: Seq<char>)
    requires
        forall|i: int| 0 <= i < id.len() ==> id[i] != '+',
        !has_suffix(name, BOT_SUFFIX@),
        emails_in(line) == Some(seq![id + seq!['+'] + name + NOREPLY_SUFFIX@]),
    ensures
        first_step(line) == Ok::<_, ResolveError>(
            StepModel::Finished(
                OutcomeModel::Replaced(mention(line, id + seq!['+'] + name + NOREPLY_SUFFIX@, name)),
            ),
        ),
{
    lemma_noreply_parts(id, name);
}

/// A no-reply address of an automated account, `<id>+<name>[bot]@users.noreply.github.com`,
/// gets `@<name>` in its place: the bot marker is dropped.
pub proof fn noreply_bot_address_drops_the_marker(line: Seq<char>, id: Seq<char>, name: Seq<char>)
    requires
        forall|i: int| 0 <= i < id.len() ==> id[i] != '+',
        emails_in(line) == Some(seq![id + seq!['+'] + (name + BOT_SUFFIX@) + NOREPLY_SUFFIX@]),
    ensures
        first_step(line) == Ok::<_, ResolveError>(
            StepModel::Finished(
                OutcomeModel::Replaced(
                    mention(line, id + seq!['+'] + (name + BOT_SUFFIX@) + NOREPLY_SUFFIX@, name),
                ),
            ),
        ),
{
    let full = name + BOT_SUFFIX@;
    let k = BOT_SUFFIX@.len() as int;
    assert(full.subrange(full.len() - k, full.len() as int) =~= BOT_SUFFIX@);
    assert(drop_tail(full, k) =~= name);
    lemma_noreply_parts(id, full);
}

/// An email address that the cache knows is replaced by the cached username, and
/// no user search follows.
pub proof fn cache_hit_needs_no_search(line: Seq<char>, email: Seq<char>, username: Seq<char>)
    ensures
        step_after_cache(line, email, Some(username)) == StepModel::Finished(
            OutcomeModel::Replaced(mention(line, email, username)),
        ),
{
}

/// A search that finds exactly one account resolves the line to it and has the
/// email written to the cache with that username.
pub proof fn single_search_result_is_remembered(
    line: Seq<char>,
    email: Seq<char>,
    username: Seq<char>,
    total: int,
    cache: Map<Seq<char>, Seq<char>>,
)
    requires
        total <= 1,
    ensures
        step_after_search(line, email, seq![username], total) == Ok::<_, ResolveError>(
            StepModel::Remember(email, username, OutcomeModel::Replaced(mention(line, email, username))),
        ),
        cache_lookup(cache.insert(email, username), email) == Some(username),
{
}

/// When the search finds nobody, the author of the last pull request linked from
/// the line is asked for; when that author is unavailable, the line stays as it
/// is and its email address is reported, with no error.
pub proof fn last_pull_request_decides(
    line: Seq<char>,
    email: Seq<char>,
    total: int,
    prs: Seq<(Seq<char>, Seq<char>, int)>,
)
    requires
        total <= 1,
        pull_requests_in(line) == Ok::<_, ResolveError>(prs),
        prs.len() > 0,
    ensures
        step_after_search(line, email, Seq::empty(), total) == Ok::<_, ResolveError>(
            StepModel::FetchAuthor(line, email, prs.last()),
        ),
        step_after_author(line, email, None) == StepModel::Finished(OutcomeModel::Unresolved(line, email)),
{
}

/// A line with more than one email address is refused.
pub proof fn several_emails_are_refused(line: Seq<char>)
    requires
        emails_in(line) matches Some(es) && es.len() > 1,
    ensures
        first_step(line) == Err::<StepModel, _>(ResolveError::MultipleEmails),
{
}

/// Once a search, or the author of a linked pull request, has resolved an email
/// address and its identity is in the cache, a later line with the same address,
/// in this run or another over the same cache, is resolved from the cache and
/// never searched for again.
pub proof fn resolved_email_is_not_searched_again(
    line1: Seq<char>,
    line2: Seq<char>,
    email: Seq<char>,
    logins: Seq<Seq<char>>,
    total: int,
    author: Option<Seq<char>>,
    remembered: StepModel,
    cache: Map<Seq<char>, Seq<char>>,
)
    requires
        first_step(line1) == Ok::<_, ResolveError>(StepModel::LookupCache(line1, email)),
        step_after_search(line1, email, logins, total) == Ok::<_, ResolveError>(remembered) || (
        step_after_search(line1, email, logins, total) matches Ok(StepModel::FetchAuthor(_, _, _))
            && step_after_author(line1, email, author) == remembered),
        remembered matches StepModel::Remember(_, _, _),
        first_step(line2) == Ok::<_, ResolveError>(StepModel::LookupCache(line2, email)),
    ensures
        remembered matches StepModel::Remember(e, u, _) && e == email && step_after_cache(
            line2,
            email,
            cache_lookup(cache.insert(e, u), email),
        ) == StepModel::Finished(OutcomeModel::Replaced(mention(line2, email, u))),
{
}

} // verus!
