//! Finding pull-request links in text.
use vstd::prelude::*;
use crate::pattern::{captures_all, regex_captures};
use crate::resolver::ResolveError;
use crate::text::{parse_decimal, parse_i64};

verus! {

/// A link to a pull request: `github.com/<owner>/<repository>/pull/<number>`, with
/// the owner, the repository and the number as groups 1, 2 and 3.
pub const PULL_REQUEST_PATTERN: &'static str = r"github\.com/(?P<owner>[\w.-]+)/(?P<repository>[\w.-]+)/pull/(?P<pull_request_number>\d+)";

/// A pull request.
#[derive(Debug)]
pub struct PullRequest {
    pub owner: String,
    pub repository: String,
    pub pull_request_number: i64,
}

impl View for PullRequest {
    type V = (Seq<char>, Seq<char>, int);

    open spec fn view(&self) -> (Seq<char>, Seq<char>, int) {
        (self.owner@, self.repository@, self.pull_request_number as int)
    }
}

/// The pull request that one match's groups describe, if its number parses.
pub open spec fn pull_request_of(g: Seq<Option<Seq<char>>>) -> Option<(Seq<char>, Seq<char>, int)> {
    if g.len() >= 4 && g[1] is Some && g[2] is Some && g[3] is Some && parse_decimal(
        g[3]->Some_0,
    ) is Some {
        Some((g[1]->Some_0, g[2]->Some_0, parse_decimal(g[3]->Some_0)->Some_0))
    } else {
        None
    }
}

/// The pull requests linked from `text`, left to right.
pub open spec fn pull_requests_in(text: Seq<char>) -> Result<Seq<(Seq<char>, Seq<char>, int)>, ResolveError> {
    match regex_captures(PULL_REQUEST_PATTERN@, text) {
        None => Err(ResolveError::InvalidPattern),
        Some(ms) => if forall|i: int| 0 <= i < ms.len() ==> (#[trigger] pull_request_of(ms[i])) is Some {
            Ok(ms.map_values(|m: Seq<Option<Seq<char>>>| pull_request_of(m)->Some_0))
        } else {
            Err(ResolveError::InvalidPullRequest)
        },
    }
}

/// What a sequence of pull requests stands for.
pub open spec fn pull_requests_view(v: Seq<PullRequest>) -> Seq<(Seq<char>, Seq<char>, int)> {
    v.map_values(|p: PullRequest| p@)
}

/// Returns the pull requests linked from `input`, left to right.
pub fn find_pull_requests(input: &str) -> (r: Result<Vec<PullRequest>, ResolveError>)
    ensures
        r matches Ok(v) ==> pull_requests_in(input@) == Ok::<_, ResolveError>(
            pull_requests_view(v@),
        ),
        r matches Err(e) ==> pull_requests_in(input@) == Err::<Seq<(Seq<char>, Seq<char>, int)>, _>(
            e,
        ),
{
    let found = captures_all(PULL_REQUEST_PATTERN, input);
    let ms = match found {
        None => { return Err(ResolveError::InvalidPattern); },
        Some(ms) => ms,
    };
    let ghost gs = ms.deep_view();
    let mut out: Vec<PullRequest> = Vec::new();
    let mut i: usize = 0;
    while i < ms.len()
        invariant
            gs == ms.deep_view(),
            regex_captures(PULL_REQUEST_PATTERN@, input@) == Some(gs),
            i <= ms@.len(),
            out@.len() == i,
            forall|k: int| 0 <= k < i ==> (#[trigger] pull_request_of(gs[k])) is Some,
            forall|k: int| 0 <= k < i ==> (#[trigger] out@[k])@ == pull_request_of(gs[k])->Some_0,
        decreases ms@.len() - i,
    {
        let m = &ms[i];
        assert(m.deep_view() == gs[i as int]);
        if m.len() < 4 {
            assert(pull_request_of(gs[i as int]) is None);
            return Err(ResolveError::InvalidPullRequest);
        }
        match (&m[1], &m[2], &m[3]) {
            (Some(owner), Some(repository), Some(number)) => {
                match parse_i64(number.as_str()) {
                    Some(n) => {
                        out.push(
                            PullRequest {
                                owner: owner.clone(),
                                repository: repository.clone(),
                                pull_request_number: n,
                            },
                        );
                    },
                    None => {
                        assert(pull_request_of(gs[i as int]) is None);
                        return Err(ResolveError::InvalidPullRequest);
                    },
                }
            },
            _ => {
                assert(pull_request_of(gs[i as int]) is None);
                return Err(ResolveError::InvalidPullRequest);
            },
        }
        i = i + 1;
    }
    assert(pull_requests_view(out@) =~= gs.map_values(
        |m: Seq<Option<Seq<char>>>| pull_request_of(m)->Some_0,
    ));
    Ok(out)
}

} // verus!
