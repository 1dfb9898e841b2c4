use nmos_core::text::{chars_of, contains, find, has_at, parse_decimal, push_decimal, split, string_of};

fn chars(s: &str) -> Vec<char> {
    s.chars().collect()
}

#[test]
fn chars_of_gives_every_character() {
    assert_eq!(chars_of("a\u{e9}\u{2603}!"), vec!['a', '\u{e9}', '\u{2603}', '!']);
    assert_eq!(chars_of(""), Vec::<char>::new());
}

#[test]
fn string_of_cuts_by_characters() {
    let text = chars("gr\u{fc}n und blau");
    assert_eq!(string_of(&text, 0, 4), "gr\u{fc}n");
    assert_eq!(string_of(&text, 5, 8), "und");
    assert_eq!(string_of(&text, 3, 3), "");
    assert_eq!(string_of(&text, 0, text.len()), "gr\u{fc}n und blau");
}

#[test]
fn parse_decimal_reads_digits_only() {
    let text = chars("x0123456789y");
    assert_eq!(parse_decimal(&text, 1, 11), Some(123456789));
    assert_eq!(parse_decimal(&text, 1, 2), Some(0));
    assert_eq!(parse_decimal(&text, 0, 3), None);
    assert_eq!(parse_decimal(&text, 10, 12), None);
    assert_eq!(parse_decimal(&text, 4, 4), None);
    assert_eq!(parse_decimal(&chars("18446744073709551615"), 0, 20), Some(u64::MAX));
    assert_eq!(parse_decimal(&chars("18446744073709551616"), 0, 20), None);
    assert_eq!(parse_decimal(&chars("99999999999999999999"), 0, 20), None);
    assert_eq!(parse_decimal(&chars("\u{0663}"), 0, 1), None);
}

#[test]
fn push_decimal_appends_the_shortest_numeral() {
    let mut out = "n=".to_string();
    push_decimal(&mut out, 0);
    push_decimal(&mut out, 7);
    push_decimal(&mut out, 1050);
    push_decimal(&mut out, u64::MAX);
    assert_eq!(out, "n=07105018446744073709551615");
}

#[test]
fn has_at_compares_in_place() {
    let text = chars("abcabc");
    assert!(has_at(&text, 0, &chars("abc")));
    assert!(has_at(&text, 3, &chars("abc")));
    assert!(!has_at(&text, 1, &chars("abc")));
    assert!(!has_at(&text, 4, &chars("abc")));
    assert!(has_at(&text, 6, &chars("")));
    assert!(!has_at(&text, 7, &chars("")));
    assert!(!has_at(&text, 0, &chars("abcabca")));
}

#[test]
fn find_gives_the_first_occurrence() {
    let text = chars("one, two, three");
    assert_eq!(find(&text, &chars(", "), 0), Some(3));
    assert_eq!(find(&text, &chars(", "), 3), Some(3));
    assert_eq!(find(&text, &chars(", "), 4), Some(8));
    assert_eq!(find(&text, &chars(", "), 9), None);
    assert_eq!(find(&text, &chars("three"), 0), Some(10));
    assert_eq!(find(&text, &chars("threes"), 0), None);
    assert_eq!(find(&text, &chars(""), 15), Some(15));
    assert_eq!(find(&text, &chars(""), 16), None);
    assert_eq!(find(&chars("aaa"), &chars("aa"), 1), Some(1));
}

#[test]
fn contains_looks_everywhere() {
    assert!(contains(&chars("application/json, text/html;q=0.9"), &chars("text/html")));
    assert!(!contains(&chars("application/json"), &chars("text/html")));
    assert!(contains(&chars("text/html"), &chars("text/html")));
    assert!(!contains(&chars("text/htm"), &chars("text/html")));
    assert!(contains(&chars(""), &chars("")));
}

#[test]
fn split_cuts_at_every_separator() {
    let pieces = |s: &str, p: &str| -> Vec<String> {
        let text = chars(s);
        split(&text, &chars(p))
            .into_iter()
            .map(|(a, b)| text[a..b].iter().collect())
            .collect()
    };
    assert_eq!(pieces("a, b, c", ", "), vec!["a", "b", "c"]);
    assert_eq!(pieces("abc", ", "), vec!["abc"]);
    assert_eq!(pieces("", ", "), vec![""]);
    assert_eq!(pieces(", ", ", "), vec!["", ""]);
    assert_eq!(pieces("a, , b, ", ", "), vec!["a", "", "b", ""]);
    assert_eq!(pieces("a,b, c", ", "), vec!["a,b", "c"]);
    assert_eq!(pieces("aaa", "aa"), vec!["", "a"]);
    for (s, p) in [("a, b, c", ", "), ("", "x"), ("xx", "x"), ("a: b: c", ": "), ("aaaa", "aa")] {
        let expected: Vec<String> = s.split(p).map(|x| x.to_string()).collect();
        assert_eq!(pieces(s, p), expected);
    }
}
