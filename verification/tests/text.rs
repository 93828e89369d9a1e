use beast_glatisant::text::{
    chars_of, contains, copy_of, find, matches_at, push_decimal, slice, split, split_lines,
    starts_with, string_of, to_ascii_lower, to_ascii_lowercase,
};

fn chars(s: &str) -> Vec<char> {
    s.chars().collect()
}

#[test]
fn chars_of_lists_every_character() {
    assert_eq!(chars_of("héllo"), vec!['h', 'é', 'l', 'l', 'o']);
    assert_eq!(chars_of(""), Vec::<char>::new());
}

#[test]
fn string_of_builds_the_same_text() {
    assert_eq!(string_of(&vec!['a', 'ß', '\n', '語']), "aß\n語");
    assert_eq!(string_of(&Vec::new()), "");
}

#[test]
fn chars_and_string_round_trip() {
    let text = "fn main() { println!(\"žluťoučký\"); }";
    assert_eq!(string_of(&chars_of(text)), text);
}

#[test]
fn matches_at_checks_one_position() {
    let hay = chars("abcabc");
    let needle = chars("bc");
    assert!(!matches_at(&needle, &hay, 0));
    assert!(matches_at(&needle, &hay, 1));
    assert!(matches_at(&needle, &hay, 4));
    assert!(!matches_at(&needle, &hay, 5));
    assert!(!matches_at(&needle, &hay, 600));
}

#[test]
fn empty_needle_matches_up_to_the_end() {
    let hay = chars("ab");
    let needle = chars("");
    assert!(matches_at(&needle, &hay, 0));
    assert!(matches_at(&needle, &hay, 2));
    assert!(!matches_at(&needle, &hay, 3));
    assert!(contains(&hay, &needle));
    assert!(contains(&chars(""), &needle));
}

#[test]
fn contains_finds_a_needle_anywhere() {
    assert!(contains(&chars("hello world"), &chars("hello")));
    assert!(contains(&chars("hello world"), &chars("o w")));
    assert!(contains(&chars("hello world"), &chars("world")));
    assert!(!contains(&chars("hello world"), &chars("worlds")));
    assert!(!contains(&chars("ab"), &chars("abc")));
}

#[test]
fn starts_with_looks_at_the_front_only() {
    assert!(starts_with(&chars("bearer x"), &chars("bearer ")));
    assert!(!starts_with(&chars(" bearer x"), &chars("bearer ")));
    assert!(!starts_with(&chars("bear"), &chars("bearer ")));
}

#[test]
fn ascii_lower_changes_capitals_only() {
    assert_eq!(to_ascii_lower('A'), 'a');
    assert_eq!(to_ascii_lower('Z'), 'z');
    assert_eq!(to_ascii_lower('m'), 'm');
    assert_eq!(to_ascii_lower('@'), '@');
    assert_eq!(to_ascii_lower('['), '[');
    assert_eq!(to_ascii_lower('É'), 'É');
    assert_eq!(to_ascii_lowercase(&chars("RuSt 1É")), chars("rust 1É"));
}

#[test]
fn split_lines_cuts_at_each_newline() {
    assert_eq!(split_lines(&chars("a\nbc\n\nd")), vec![chars("a"), chars("bc"), chars(""), chars("d")]);
}

#[test]
fn split_lines_of_a_text_without_newline_is_one_line() {
    assert_eq!(split_lines(&chars("abc")), vec![chars("abc")]);
    assert_eq!(split_lines(&chars("")), vec![chars("")]);
}

#[test]
fn split_lines_keeps_an_empty_last_line() {
    assert_eq!(split_lines(&chars("a\n")), vec![chars("a"), chars("")]);
    assert_eq!(split_lines(&chars("\n")), vec![chars(""), chars("")]);
}

#[test]
fn split_lines_agrees_with_str_split() {
    let text = "cmd\nwarning: unused\n  --> src/main.rs\n\nFinished dev [unoptimized]\n";
    let expected: Vec<Vec<char>> = text.split('\n').map(|l| l.chars().collect()).collect();
    assert_eq!(split_lines(&chars(text)), expected);
}

#[test]
fn push_decimal_writes_the_numeral() {
    let mut out = chars("n=");
    push_decimal(0, &mut out);
    assert_eq!(out, chars("n=0"));
    let mut out = Vec::new();
    push_decimal(7, &mut out);
    push_decimal(10, &mut out);
    push_decimal(4294967295, &mut out);
    assert_eq!(out, chars("7104294967295"));
    let mut out = Vec::new();
    push_decimal(1005, &mut out);
    assert_eq!(out, chars("1005"));
}

#[test]
fn split_cuts_at_the_separator() {
    assert_eq!(split(&chars("a,b,,c"), ','), vec![chars("a"), chars("b"), chars(""), chars("c")]);
    assert_eq!(split(&chars("a\nb"), ','), vec![chars("a\nb")]);
    assert_eq!(split(&chars(","), ','), vec![chars(""), chars("")]);
    assert_eq!(split(&chars(""), ','), vec![chars("")]);
}

#[test]
fn find_gives_the_first_place_from_the_start() {
    let v = chars("a<b<c");
    assert_eq!(find(&v, 0, '<'), 1);
    assert_eq!(find(&v, 1, '<'), 1);
    assert_eq!(find(&v, 2, '<'), 3);
    assert_eq!(find(&v, 4, '<'), 5);
    assert_eq!(find(&v, 5, '<'), 5);
    assert_eq!(find(&v, 0, '>'), 5);
    assert_eq!(find(&Vec::new(), 0, 'x'), 0);
}

#[test]
fn slice_copies_a_stretch() {
    let v = chars("hello");
    assert_eq!(slice(&v, 1, 4), chars("ell"));
    assert_eq!(slice(&v, 0, 5), chars("hello"));
    assert_eq!(slice(&v, 2, 2), chars(""));
    assert_eq!(slice(&v, 5, 5), chars(""));
}

#[test]
fn copy_of_keeps_the_text() {
    assert_eq!(copy_of(&Some("añb".to_string())), Some("añb".to_string()));
    assert_eq!(copy_of(&None), None);
}
