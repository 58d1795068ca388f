use usernamify::emails::find_emails;
use usernamify::pull_request::find_pull_requests;
use usernamify::resolver::ResolveError;
use usernamify::text::{ends_with, parse_i64, replace_every, split_after_first, strip_suffix};

#[test]
fn finds_one_email() {
    let found = find_emails("- Fix parser (alice@example.com)").unwrap();
    assert_eq!(found, vec!["alice@example.com".to_string()]);
}

#[test]
fn finds_no_email() {
    let found = find_emails("- Fix parser, see #12").unwrap();
    assert!(found.is_empty());
}

#[test]
fn finds_emails_left_to_right() {
    let found = find_emails("bob@example.org and carol@example.net").unwrap();
    assert_eq!(found, vec!["bob@example.org".to_string(), "carol@example.net".to_string()]);
}

#[test]
fn finds_noreply_bot_email() {
    let found = find_emails("x 49699333+dependabot[bot]@users.noreply.github.com y").unwrap();
    assert_eq!(found, vec!["49699333+dependabot[bot]@users.noreply.github.com".to_string()]);
}

#[test]
fn finds_ip_literal_email() {
    let found = find_emails("root@[192.168.0.1] wrote").unwrap();
    assert_eq!(found, vec!["root@[192.168.0.1]".to_string()]);
}

#[test]
fn finds_pull_requests_in_order() {
    let prs = find_pull_requests(
        "revert: x (https://github.com/acme/tool/pull/12) (https://github.com/acme.io/my-tool/pull/345)",
    )
    .unwrap();
    assert_eq!(prs.len(), 2);
    assert_eq!(prs[0].owner, "acme");
    assert_eq!(prs[0].repository, "tool");
    assert_eq!(prs[0].pull_request_number, 12);
    assert_eq!(prs[1].owner, "acme.io");
    assert_eq!(prs[1].repository, "my-tool");
    assert_eq!(prs[1].pull_request_number, 345);
}

#[test]
fn finds_no_pull_request() {
    let prs = find_pull_requests("see https://github.com/acme/tool/issues/3").unwrap();
    assert!(prs.is_empty());
}

#[test]
fn pull_request_number_too_large_is_an_error() {
    let r = find_pull_requests("github.com/a/b/pull/99999999999999999999");
    assert!(matches!(r, Err(ResolveError::InvalidPullRequest)));
}

#[test]
fn parses_decimal_numbers() {
    assert_eq!(parse_i64("0"), Some(0));
    assert_eq!(parse_i64("007"), Some(7));
    assert_eq!(parse_i64("9223372036854775807"), Some(i64::MAX));
    assert_eq!(parse_i64("9223372036854775808"), None);
    assert_eq!(parse_i64(""), None);
    assert_eq!(parse_i64("12a"), None);
    assert_eq!(parse_i64("\u{0663}"), None);
}

#[test]
fn replaces_every_occurrence() {
    assert_eq!(replace_every("a x@y b x@y", "x@y", "@bob"), "a @bob b @bob");
    assert_eq!(replace_every("aaa", "aa", "b"), "ba");
    assert_eq!(replace_every("abc", "", "z"), "abc");
    assert_eq!(replace_every("ab", "abc", "z"), "ab");
    assert_eq!(replace_every("été x", "x", "ü"), "été ü");
}

#[test]
fn suffix_and_split_helpers() {
    assert!(ends_with("name[bot]", "[bot]"));
    assert!(!ends_with("bot]", "[bot]"));
    assert_eq!(strip_suffix("name[bot]", "[bot]"), Some("name".to_string()));
    assert_eq!(strip_suffix("name", "[bot]"), None);
    assert_eq!(split_after_first("12+a+b", '+'), Some("a+b".to_string()));
    assert_eq!(split_after_first("12", '+'), None);
}
