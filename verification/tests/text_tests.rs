use syncplay_core::text::{
    find, format_thousandths, from_chars, has_prefix, has_suffix, index_of_text, is_blank, joined,
    parse_thousandths, replaced, same_ignore_case, split_on, split_words, to_chars, to_lower,
    to_upper, trimmed,
};

fn chars(s: &str) -> Vec<char> {
    to_chars(s)
}

fn texts(parts: &Vec<Vec<char>>) -> Vec<String> {
    parts.iter().map(|p| from_chars(p)).collect()
}

#[test]
fn chars_round_trip() {
    for s in ["", "abc", "h\u{e9}llo \u{1f600}"] {
        assert_eq!(from_chars(&to_chars(s)), s);
        assert_eq!(to_chars(s), s.chars().collect::<Vec<char>>());
    }
}

#[test]
fn case_changes_touch_ascii_letters_only() {
    assert_eq!(from_chars(&to_lower(&chars("AbC-\u{c9}1"))), "abc-\u{c9}1");
    assert_eq!(from_chars(&to_upper(&chars("AbC-\u{e9}1"))), "ABC-\u{e9}1");
    assert!(same_ignore_case(&chars("HeLLo"), &chars("hello")));
    assert!(!same_ignore_case(&chars("hello"), &chars("hell")));
    assert!(!same_ignore_case(&chars("\u{c9}"), &chars("\u{e9}")));
}

#[test]
fn trimmed_removes_white_space_at_both_ends() {
    assert_eq!(from_chars(&trimmed(&chars("  a b \t\n"))), "a b");
    assert_eq!(from_chars(&trimmed(&chars("\u{a0}x\u{3000}"))), "x");
    assert_eq!(from_chars(&trimmed(&chars("   "))), "");
    assert_eq!(from_chars(&trimmed(&chars(""))), "");
    assert!(is_blank(&chars(" \t ")));
    assert!(is_blank(&chars("")));
    assert!(!is_blank(&chars(" a ")));
}

#[test]
fn find_gives_the_first_place() {
    assert_eq!(find(&chars("abcabc"), &chars("bc")), Some(1));
    assert_eq!(find(&chars("abcabc"), &chars("x")), None);
    assert_eq!(find(&chars("abc"), &chars("")), Some(0));
    assert_eq!(find(&chars(""), &chars("")), Some(0));
    assert_eq!(find(&chars("ab"), &chars("abc")), None);
    assert_eq!(find(&chars("aab"), &chars("ab")), Some(1));
    assert!(has_prefix(&chars("abc"), &chars("ab")));
    assert!(!has_prefix(&chars("abc"), &chars("bc")));
    assert!(has_suffix(&chars("abc"), &chars("bc")));
    assert!(!has_suffix(&chars("bc"), &chars("abc")));
}

#[test]
fn split_and_join_are_inverse() {
    for s in ["a:b:c", "", ":", "a::b", ":a:", "abc"] {
        let parts = split_on(&chars(s), ':');
        assert_eq!(from_chars(&joined(&parts, &chars(":"))), s);
        let expected: Vec<String> = s.split(':').map(|p| p.to_string()).collect();
        assert_eq!(texts(&parts), expected);
    }
}

#[test]
fn split_words_drops_runs_of_white_space() {
    assert_eq!(texts(&split_words(&chars("  a  b\tc\n"))), vec!["a", "b", "c"]);
    assert!(split_words(&chars("   ")).is_empty());
    assert!(split_words(&chars("")).is_empty());
}

#[test]
fn replaced_replaces_every_match_from_the_left() {
    assert_eq!(from_chars(&replaced(&chars("a.b.c"), &chars("."), &chars("::"))), "a::b::c");
    assert_eq!(from_chars(&replaced(&chars("aaa"), &chars("aa"), &chars("b"))), "ba");
    assert_eq!(from_chars(&replaced(&chars("abc"), &chars("x"), &chars("y"))), "abc");
    assert_eq!(from_chars(&replaced(&chars(""), &chars("x"), &chars("y"))), "");
}

#[test]
fn index_of_text_finds_the_first() {
    let list = vec!["a".to_string(), "b".to_string(), "a".to_string()];
    assert_eq!(index_of_text(&list, "a"), Some(0));
    assert_eq!(index_of_text(&list, "b"), Some(1));
    assert_eq!(index_of_text(&list, "c"), None);
    assert_eq!(index_of_text(&[], "a"), None);
}

#[test]
fn parse_thousandths_reads_decimal_numerals() {
    assert_eq!(parse_thousandths("1.5"), Some(1500));
    assert_eq!(parse_thousandths("0"), Some(0));
    assert_eq!(parse_thousandths("12"), Some(12000));
    assert_eq!(parse_thousandths("-2.25"), Some(-2250));
    assert_eq!(parse_thousandths("3.14159"), Some(3141));
    assert_eq!(parse_thousandths("0.001"), Some(1));
    assert_eq!(parse_thousandths(""), None);
    assert_eq!(parse_thousandths("abc"), None);
    assert_eq!(parse_thousandths("1.2.3"), None);
    assert_eq!(parse_thousandths("1e3"), None);
}

#[test]
fn format_thousandths_writes_three_places() {
    assert_eq!(format_thousandths(1500), "1.500");
    assert_eq!(format_thousandths(0), "0.000");
    assert_eq!(format_thousandths(-2250), "-2.250");
    assert_eq!(format_thousandths(7), "0.007");
    assert_eq!(format_thousandths(100200), "100.200");
}
