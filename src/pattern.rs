//! The one place where the regular-expression engine is called.
use vstd::prelude::*;

verus! {

/// What the regex engine yields for `pattern` on `text`: nothing when it refuses
/// the pattern, else for each successive non-overlapping match, leftmost first,
/// the text of each capture group (absent where the group took no part).
pub uninterp spec fn regex_captures(pattern: Seq<char>, text: Seq<char>) -> Option<
    Seq<Seq<Option<Seq<char>>>>,
>;

/// Relies on `regex::Regex::new`, which refuses an invalid pattern, and on
/// `Regex::captures_iter` with `Captures::iter`, whose group 0, the whole match,
/// is always present.
#[verifier::external_body]
pub(crate) fn captures_all(pattern: &str, text: &str) -> (r: Option<Vec<Vec<Option<String>>>>)
    ensures
        r.deep_view() == regex_captures(pattern@, text@),
        r matches Some(ms) ==> forall|i: int|
            0 <= i < ms@.len() ==> (#[trigger] ms@[i])@.len() > 0 && ms@[i]@[0] is Some,
{
    let re = regex::Regex::new(pattern).ok()?;
    Some(
        re.captures_iter(text).map(|c| c.iter().map(|g| g.map(|m| m.as_str().to_owned())).collect())
            .collect(),
    )
}

} // verus!
