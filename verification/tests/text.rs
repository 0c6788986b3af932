use movedogs::text::{
    chars_of, contains, copy_range, ends_with, find_from, last_piece, matches_at, split_at,
    starts_with, string_of,
};

fn chars(s: &str) -> Vec<char> {
    s.chars().collect()
}

#[test]
fn chars_and_strings_convert_both_ways() {
    assert_eq!(chars_of("héllo"), vec!['h', 'é', 'l', 'l', 'o']);
    assert_eq!(chars_of(""), Vec::<char>::new());
    assert_eq!(string_of(&vec!['h', 'é', 'l', 'l', 'o']), "héllo".to_string());
    assert_eq!(string_of(&Vec::new()), String::new());
}

#[test]
fn matching_at_a_position() {
    assert!(matches_at(&chars("github.com"), &chars("hub"), 3));
    assert!(!matches_at(&chars("github.com"), &chars("hub"), 2));
    assert!(!matches_at(&chars("github.com"), &chars("com"), 8));
    assert!(matches_at(&chars("abc"), &chars(""), 3));
    assert!(!matches_at(&chars("abc"), &chars(""), 4));
}

#[test]
fn prefixes_and_suffixes() {
    assert!(starts_with(&chars("# Module x"), &chars("# Module")));
    assert!(!starts_with(&chars(" # Module x"), &chars("# Module")));
    assert!(!starts_with(&chars("# Mod"), &chars("# Module")));
    assert!(starts_with(&chars("abc"), &chars("")));
    assert!(ends_with(&chars("a.md"), &chars(".md")));
    assert!(!ends_with(&chars("a.mdx"), &chars(".md")));
    assert!(!ends_with(&chars("md"), &chars(".md")));
    assert!(ends_with(&chars(""), &chars("")));
}

#[test]
fn searching_for_text() {
    assert_eq!(find_from(&chars("a::b::c"), &chars("::"), 0), 1);
    assert_eq!(find_from(&chars("a::b::c"), &chars("::"), 2), 4);
    assert_eq!(find_from(&chars("a::b::c"), &chars("::"), 5), 7);
    assert_eq!(find_from(&chars("abc"), &chars("abcd"), 0), 3);
    assert!(contains(&chars("see github.com/x"), &chars("github.com")));
    assert!(!contains(&chars("see github,com/x"), &chars("github.com")));
    assert!(contains(&chars(""), &chars("")));
    assert!(!contains(&chars(""), &chars("a")));
}

#[test]
fn copying_a_range() {
    assert_eq!(copy_range(&chars("abcdef"), 2, 4), chars("cd"));
    assert_eq!(copy_range(&chars("abcdef"), 3, 3), chars(""));
    assert_eq!(copy_range(&chars("abcdef"), 0, 6), chars("abcdef"));
}

#[test]
fn splitting_keeps_empty_pieces() {
    assert_eq!(split_at(&chars("a\tb c"), '\t', ' '), vec![chars("a"), chars("b"), chars("c")]);
    assert_eq!(split_at(&chars("a  b"), '\t', ' '), vec![chars("a"), chars(""), chars("b")]);
    assert_eq!(split_at(&chars(" a "), ' ', ' '), vec![chars(""), chars("a"), chars("")]);
    assert_eq!(split_at(&chars(""), ' ', ' '), vec![chars("")]);
    assert_eq!(split_at(&chars("x\ny\n"), '\n', '\n'), vec![chars("x"), chars("y"), chars("")]);
}

#[test]
fn last_piece_follows_separators_from_the_left() {
    assert_eq!(last_piece(&chars("0x1::coin"), &chars("::")), chars("coin"));
    assert_eq!(last_piece(&chars("a::b::c"), &chars("::")), chars("c"));
    assert_eq!(last_piece(&chars("a:::b"), &chars("::")), chars(":b"));
    assert_eq!(last_piece(&chars("a::"), &chars("::")), chars(""));
    assert_eq!(last_piece(&chars("abc"), &chars("::")), chars("abc"));
    assert_eq!(last_piece(&chars("abc"), &chars("")), chars("abc"));
}
