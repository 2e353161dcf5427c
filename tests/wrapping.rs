use rustychatbox::wrap::{wrap, wrap_fragment, Joiner, MAX_LINE_WIDTH};
use rustychatbox::text::{decimal_text, join_lines, split_at_char, trim};

fn strings(v: &[&str]) -> Vec<String> {
    v.iter().map(|s| s.to_string()).collect()
}

#[test]
fn wrap_twice_gives_identical_output() {
    let fragments = strings(&["Listening to: Some Artist - A Rather Long Song Title", "My time: 03:04 PM", "CPU: 12% | GPU: 40%"]);
    let first = wrap(&fragments, Joiner::Inline, MAX_LINE_WIDTH);
    let second = wrap(&fragments, Joiner::Inline, MAX_LINE_WIDTH);
    assert_eq!(first, second);
    let first = wrap(&fragments, Joiner::Newline, MAX_LINE_WIDTH);
    let second = wrap(&fragments, Joiner::Newline, MAX_LINE_WIDTH);
    assert_eq!(first, second);
}

#[test]
fn wrapped_lines_fit_the_width() {
    let fragments = strings(&[
        "supercalifragilisticexpialidocious-and-then-some more words here",
        "a b c d e f g h i j k l m n o p q r s t u v w x y z",
        "🗨 ünïcödé wörds wïth äccents ärë cöüntëd äs chärs",
    ]);
    for joiner in [Joiner::Inline, Joiner::Newline] {
        let lines = wrap(&fragments, joiner, MAX_LINE_WIDTH);
        assert!(!lines.is_empty());
        for line in &lines {
            assert!(line.chars().count() <= 27, "line too wide: {:?}", line);
        }
    }
}

#[test]
fn oversized_word_is_cut_to_exactly_the_width() {
    let lines = wrap_fragment("abcdefghijklmnopqrstuvwxyz0123456789", 27);
    assert_eq!(lines, strings(&["abcdefghijklmnopqrstuvwxyz0"]));
    assert_eq!(lines[0].chars().count(), 27);
    let lines = wrap_fragment("hi abcdefghijklmnopqrstuvwxyz0123456789 there", 27);
    assert_eq!(lines, strings(&["hi", "abcdefghijklmnopqrstuvwxyz0", "there"]));
}

#[test]
fn greedy_packing_and_newlines() {
    let lines = wrap_fragment("hello world this is a long test message", 27);
    assert_eq!(lines, strings(&["hello world this is a long", "test message"]));
    let lines = wrap_fragment("first line\n\n  second   line  ", 27);
    assert_eq!(lines, strings(&["first line", "second line"]));
    assert!(wrap_fragment("   ", 27).is_empty());
    assert!(wrap_fragment("", 27).is_empty());
}

#[test]
fn inline_separator_goes_on_the_last_line_when_it_fits() {
    let fragments = strings(&["Status", "My time: 03:04 PM"]);
    let lines = wrap(&fragments, Joiner::Inline, 27);
    assert_eq!(lines, strings(&["Status | ", "My time: 03:04 PM"]));
    let fragments = strings(&["exactly twenty five chars", "next"]);
    let lines = wrap(&fragments, Joiner::Inline, 27);
    assert_eq!(lines, strings(&["exactly twenty five chars", " | ", "next"]));
    let lines = wrap(&fragments, Joiner::Newline, 27);
    assert_eq!(lines, strings(&["exactly twenty five chars", "next"]));
}

#[test]
fn empty_fragment_list_gives_no_lines() {
    let lines = wrap(&Vec::new(), Joiner::Inline, 27);
    assert!(lines.is_empty());
    assert_eq!(join_lines(&lines), "");
}

#[test]
fn text_helpers() {
    assert_eq!(trim("  \t padded \n"), "padded");
    assert_eq!(trim("   "), "");
    assert_eq!(split_at_char("a|b||c", '|'), strings(&["a", "b", "", "c"]));
    assert_eq!(split_at_char("", ','), strings(&[""]));
    assert_eq!(join_lines(&strings(&["a", "b", "c"])), "a\nb\nc");
    assert_eq!(decimal_text(0), "0");
    assert_eq!(decimal_text(1234567), "1234567");
    assert_eq!(decimal_text(u64::MAX), "18446744073709551615");
}
