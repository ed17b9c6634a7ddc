use asdf::plugins::{parse_payload, ParseError, Plugin};

#[test]
fn parses_four_fields() {
    let p = Plugin::try_from("foo https://x/foo main abc123").unwrap();
    assert_eq!(p.name(), "foo");
    assert_eq!(p.git_url(), "https://x/foo");
    assert_eq!(p.git_branch().as_deref(), Some("main"));
    assert_eq!(p.git_ref().as_deref(), Some("abc123"));
}

#[test]
fn parses_two_fields_with_runs_of_whitespace() {
    let p = Plugin::try_from("  bar \t https://x/bar   ").unwrap();
    assert_eq!(p.name(), "bar");
    assert_eq!(p.git_url(), "https://x/bar");
    assert_eq!(p.git_branch(), &None);
    assert_eq!(p.git_ref(), &None);
}

#[test]
fn ignores_words_past_the_fourth() {
    let p = Plugin::try_from("a b c d e f").unwrap();
    assert_eq!(p.git_ref().as_deref(), Some("d"));
}

#[test]
fn three_fields_leave_the_reference_empty() {
    let p = Plugin::try_from("a b c").unwrap();
    assert_eq!(p.git_branch().as_deref(), Some("c"));
    assert_eq!(p.git_ref(), &None);
}

#[test]
fn unicode_whitespace_separates_words() {
    let p = Plugin::try_from("a\u{3000}b").unwrap();
    assert_eq!(p.name(), "a");
    assert_eq!(p.git_url(), "b");
}

#[test]
fn empty_line_has_no_name() {
    assert_eq!(Plugin::try_from(""), Err(ParseError::MissingName));
    assert_eq!(Plugin::try_from(" \t "), Err(ParseError::MissingName));
}

#[test]
fn one_word_has_no_url() {
    assert_eq!(Plugin::try_from("foo"), Err(ParseError::MissingGitUrl));
}

#[test]
fn payload_yields_two_records() {
    let ps = parse_payload("foo https://x/foo main abc123\nbar https://x/bar").unwrap();
    assert_eq!(ps.len(), 2);
    assert_eq!(ps[0].name(), "foo");
    assert_eq!(ps[0].git_url(), "https://x/foo");
    assert_eq!(ps[0].git_branch().as_deref(), Some("main"));
    assert_eq!(ps[0].git_ref().as_deref(), Some("abc123"));
    assert_eq!(ps[1].name(), "bar");
    assert_eq!(ps[1].git_url(), "https://x/bar");
    assert_eq!(ps[1].git_branch(), &None);
    assert_eq!(ps[1].git_ref(), &None);
}

#[test]
fn payload_skips_empty_lines_and_carriage_returns() {
    let ps = parse_payload("\nfoo u1\r\n\r\nbar u2\n").unwrap();
    assert_eq!(ps.len(), 2);
    assert_eq!(ps[0].git_url(), "u1");
    assert_eq!(ps[1].name(), "bar");
}

#[test]
fn payload_keeps_duplicates_in_order() {
    let ps = parse_payload("foo u1\nfoo u1").unwrap();
    assert_eq!(ps.len(), 2);
    assert_eq!(ps[0], ps[1]);
}

#[test]
fn payload_fails_as_a_unit() {
    assert!(parse_payload("foo u1\nbroken\nbar u2").is_none());
}

#[test]
fn empty_payload_is_empty() {
    assert_eq!(parse_payload("").unwrap().len(), 0);
}

#[test]
fn carriage_return_stays_on_a_last_line_without_line_feed() {
    assert!(parse_payload("a b\n\r").is_none());
    let ps = parse_payload("a b\r\n").unwrap();
    assert_eq!(ps[0].git_url(), "b");
}
