use std::collections::HashMap;

use usernamify::report::Report;
use usernamify::resolver::{noreply_user, resolve_line, LineOutcome, PendingLine, ResolveError, Step};

fn pending(step: Result<Step, ResolveError>) -> PendingLine {
    match step {
        Ok(Step::LookupCache(p)) => p,
        other => panic!("expected a cache lookup, got {other:?}"),
    }
}

fn replaced(step: Step) -> String {
    match step {
        Step::Finished(LineOutcome::Replaced { output }) => output,
        other => panic!("expected a replaced line, got {other:?}"),
    }
}

/// Drives one line against an in-memory cache and a search that answers from
/// `directory`, counting the searches made.
fn run_line(
    line: &str,
    cache: &mut HashMap<String, String>,
    directory: &HashMap<String, String>,
    searches: &mut usize,
) -> LineOutcome {
    let mut step = resolve_line(line.to_string()).unwrap();
    loop {
        step = match step {
            Step::Finished(outcome) => return outcome,
            Step::LookupCache(p) => {
                let cached = cache.get(&p.email).cloned();
                p.with_cached(cached)
            }
            Step::SearchUsers(p) => {
                *searches += 1;
                let logins: Vec<String> = directory.get(&p.email).cloned().into_iter().collect();
                let total = logins.len() as i64;
                p.with_search_results(logins, total).unwrap()
            }
            Step::FetchAuthor(p, _) => p.with_author(None),
            Step::Remember(user, outcome) => {
                cache.insert(user.email, user.username);
                return outcome;
            }
        };
    }
}

#[test]
fn line_without_email_is_unchanged() {
    let line = "- Bump version to 1.2.3";
    assert_eq!(replaced(resolve_line(line.to_string()).unwrap()), line);
}

#[test]
fn empty_line_is_unchanged() {
    assert_eq!(replaced(resolve_line(String::new()).unwrap()), "");
}

#[test]
fn noreply_address_is_replaced_without_lookup() {
    let out = replaced(resolve_line("- Fix (123+alice@users.noreply.github.com)".to_string()).unwrap());
    assert_eq!(out, "- Fix (@alice)");
}

#[test]
fn noreply_bot_address_drops_marker() {
    let out =
        replaced(resolve_line("- Bump (456+dependabot[bot]@users.noreply.github.com)".to_string()).unwrap());
    assert_eq!(out, "- Bump (@dependabot)");
}

#[test]
fn noreply_without_plus_is_unresolved() {
    match resolve_line("- Fix (alice@users.noreply.github.com)".to_string()).unwrap() {
        Step::Finished(LineOutcome::Unresolved { output, email }) => {
            assert_eq!(output, "- Fix (alice@users.noreply.github.com)");
            assert_eq!(email, "alice@users.noreply.github.com");
        }
        other => panic!("unexpected {other:?}"),
    }
}

#[test]
fn noreply_user_cases() {
    assert_eq!(noreply_user("1+a@users.noreply.github.com"), Some(Some("a".to_string())));
    assert_eq!(noreply_user("1+a[bot]@users.noreply.github.com"), Some(Some("a".to_string())));
    assert_eq!(noreply_user("a@users.noreply.github.com"), Some(None));
    assert_eq!(noreply_user("a@example.com"), None);
}

#[test]
fn cached_email_is_replaced_without_search() {
    let p = pending(resolve_line("- Fix (bob@example.com)".to_string()));
    assert_eq!(p.email, "bob@example.com");
    assert_eq!(replaced(p.with_cached(Some("bob".to_string()))), "- Fix (@bob)");

    let mut cache = HashMap::from([("bob@example.com".to_string(), "bob".to_string())]);
    let mut searches = 0;
    let outcome = run_line("- Fix (bob@example.com)", &mut cache, &HashMap::new(), &mut searches);
    assert!(matches!(outcome, LineOutcome::Replaced { ref output } if output == "- Fix (@bob)"));
    assert_eq!(searches, 0);
}

#[test]
fn cache_miss_leads_to_search() {
    let p = pending(resolve_line("- Fix (carol@example.com)".to_string()));
    assert!(matches!(p.with_cached(None), Step::SearchUsers(_)));
}

#[test]
fn single_search_result_is_remembered() {
    let p = pending(resolve_line("- Fix (carol@example.com)".to_string()));
    match p.with_search_results(vec!["carol".to_string()], 1).unwrap() {
        Step::Remember(user, LineOutcome::Replaced { output }) => {
            assert_eq!(user.email, "carol@example.com");
            assert_eq!(user.username, "carol");
            assert_eq!(output, "- Fix (@carol)");
        }
        other => panic!("unexpected {other:?}"),
    }
}

#[test]
fn several_accounts_are_an_error() {
    let p = pending(resolve_line("- Fix (dave@example.com)".to_string()));
    let r = p.with_search_results(vec!["dave".to_string()], 2);
    assert!(matches!(r, Err(ResolveError::MultipleUsers)));
    let p = pending(resolve_line("- Fix (dave@example.com)".to_string()));
    let r = p.with_search_results(vec!["d1".to_string(), "d2".to_string()], 1);
    assert!(matches!(r, Err(ResolveError::MultipleUsers)));
}

#[test]
fn no_result_and_no_link_is_unresolved() {
    let p = pending(resolve_line("- Fix (erin@example.com)".to_string()));
    match p.with_search_results(Vec::new(), 0).unwrap() {
        Step::Finished(LineOutcome::Unresolved { output, email }) => {
            assert_eq!(output, "- Fix (erin@example.com)");
            assert_eq!(email, "erin@example.com");
        }
        other => panic!("unexpected {other:?}"),
    }
}

#[test]
fn last_pull_request_is_asked_and_missing_author_is_unresolved() {
    let line = "revert: a (https://github.com/o/r/pull/1) (https://github.com/o/r/pull/2) (frank@example.com)";
    let p = pending(resolve_line(line.to_string()));
    match p.with_search_results(Vec::new(), 0).unwrap() {
        Step::FetchAuthor(p, pr) => {
            assert_eq!(pr.owner, "o");
            assert_eq!(pr.repository, "r");
            assert_eq!(pr.pull_request_number, 2);
            match p.with_author(None) {
                Step::Finished(LineOutcome::Unresolved { output, email }) => {
                    assert_eq!(output, line);
                    assert_eq!(email, "frank@example.com");
                }
                other => panic!("unexpected {other:?}"),
            }
        }
        other => panic!("unexpected {other:?}"),
    }
}

#[test]
fn pull_request_author_is_remembered() {
    let line = "- Add x (https://github.com/o/r/pull/7) (gina@example.com)";
    let p = pending(resolve_line(line.to_string()));
    match p.with_search_results(Vec::new(), 0).unwrap() {
        Step::FetchAuthor(p, _) => match p.with_author(Some("gina".to_string())) {
            Step::Remember(user, LineOutcome::Replaced { output }) => {
                assert_eq!(user.email, "gina@example.com");
                assert_eq!(user.username, "gina");
                assert_eq!(output, "- Add x (https://github.com/o/r/pull/7) (@gina)");
            }
            other => panic!("unexpected {other:?}"),
        },
        other => panic!("unexpected {other:?}"),
    }
}

#[test]
fn two_emails_in_a_line_are_refused() {
    let r = resolve_line("- Pair (a@example.com, b@example.com)".to_string());
    assert!(matches!(r, Err(ResolveError::MultipleEmails)));
}

#[test]
fn second_run_uses_the_cache() {
    let directory = HashMap::from([("carol@example.com".to_string(), "carol".to_string())]);
    let mut cache = HashMap::new();
    let mut searches = 0;
    let first = run_line("- One (carol@example.com)", &mut cache, &directory, &mut searches);
    assert!(matches!(first, LineOutcome::Replaced { ref output } if output == "- One (@carol)"));
    assert_eq!(cache.get("carol@example.com").map(String::as_str), Some("carol"));
    assert_eq!(searches, 1);
    let second = run_line("- Two (carol@example.com)", &mut cache, &directory, &mut searches);
    assert!(matches!(second, LineOutcome::Replaced { ref output } if output == "- Two (@carol)"));
    assert_eq!(searches, 1);
}

#[test]
fn report_joins_lines_and_lists_unresolved() {
    let mut report = Report::new();
    assert_eq!(report.output(), "");
    report.record(LineOutcome::Replaced { output: "a @x".to_string() });
    report.record(LineOutcome::Unresolved { output: "b y@z".to_string(), email: "y@z".to_string() });
    report.record(LineOutcome::Replaced { output: "c".to_string() });
    assert_eq!(report.output(), "a @x\nb y@z\nc");
    assert_eq!(report.unresolved, vec!["y@z".to_string()]);
}
