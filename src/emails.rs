//! Finding email addresses in text.
use vstd::prelude::*;
use crate::pattern::{captures_all, regex_captures};
use crate::resolver::ResolveError;

verus! {

/// The grammar of an email address: a dot-atom or quoted local part, then `@`,
/// then dot-separated domain labels or a bracketed IPv4 or tagged literal.
pub const EMAIL_PATTERN: &'static str = r#"(?:[a-zA-Z0-9!#$%&'*+/=?^_`{|}~\-\[\]]+(?:\.[a-zA-Z0-9!#$%&'*+/=?^_`{|}~\-\[\]]+)*|"(?:[\x01-\x08\x0b\x0c\x0e-\x1f\x21\x23-\x5b\x5d-\x7f]|\\[\x01-\x09\x0b\x0c\x0e-\x7f])*")@(?:(?:[a-z0-9](?:[a-z0-9-]*[a-z0-9])?\.)+[a-z0-9](?:[a-z0-9-]*[a-z0-9])?|\[(?:(?:(2(5[0-5]|[0-4][0-9])|1[0-9][0-9]|[1-9]?[0-9]))\.){3}(?:(2(5[0-5]|[0-4][0-9])|1[0-9][0-9]|[1-9]?[0-9])|[a-z0-9-]*[a-z0-9]:(?:[\x01-\x08\x0b\x0c\x0e-\x1f\x21-\x5a\x53-\x7f]|\\[\x01-\x09\x0b\x0c\x0e-\x7f])+)\])"#;

/// The whole text of each match.
pub open spec fn whole_matches(ms: Seq<Seq<Option<Seq<char>>>>) -> Seq<Seq<char>> {
    ms.map_values(|m: Seq<Option<Seq<char>>>| m[0]->Some_0)
}

/// The email addresses in `text`, left to right; nothing when the engine refuses
/// the grammar.
pub open spec fn emails_in(text: Seq<char>) -> Option<Seq<Seq<char>>> {
    match regex_captures(EMAIL_PATTERN@, text) {
        Some(ms) => Some(whole_matches(ms)),
        None => None,
    }
}

/// Returns the email addresses found in `input`, left to right.
pub fn find_emails(input: &str) -> (r: Result<Vec<String>, ResolveError>)
    ensures
        r matches Ok(v) ==> emails_in(input@) == Some(v.deep_view()),
        r matches Err(e) ==> e == ResolveError::InvalidPattern && emails_in(input@) is None,
{
    let found = captures_all(EMAIL_PATTERN, input);
    match found {
        None => Err(ResolveError::InvalidPattern),
        Some(ms) => {
            let mut out: Vec<String> = Vec::new();
            let mut i: usize = 0;
            while i < ms.len()
                invariant
                    i <= ms@.len(),
                    forall|k: int|
                        0 <= k < ms@.len() ==> (#[trigger] ms@[k])@.len() > 0 && ms@[k]@[0] is Some,
                    out@.len() == i,
                    forall|k: int|
                        0 <= k < i ==> (#[trigger] out@[k])@ == ms.deep_view()[k][0]->Some_0,
                decreases ms@.len() - i,
            {
                let m = &ms[i];
                let whole = m[0].clone().unwrap();
                out.push(whole);
                i = i + 1;
            }
            assert(out.deep_view() =~= whole_matches(ms.deep_view()));
            Ok(out)
        },
    }
}

} // verus!
