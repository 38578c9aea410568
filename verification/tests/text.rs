use canalhas_manager::text::{
    chars_of, contains, ends_with, join, lines, matches_at, push_decimal, split_trimmed,
    starts_with, text_of, trim_bounds, trim_bounds_of, trim_char, words_of, CharClass,
};

fn trim(s: &str) -> String {
    let v = chars_of(s);
    let (lo, hi) = trim_bounds(&v, 0, v.len());
    text_of(&v, lo, hi)
}

fn words(s: &str) -> Vec<String> {
    let v = chars_of(s);
    words_of(&v, 0, v.len())
}

fn decimal(n: u32) -> String {
    let mut s = String::new();
    push_decimal(&mut s, n);
    s
}

const SAMPLES: [&str; 14] = [
    "",
    " ",
    "a",
    "  a  ",
    "\t a b \n",
    "\u{a0}x\u{2003}",
    "\u{3000}\u{3000}",
    "a\u{85}b",
    " \r\n",
    "no-space",
    "  two  words  ",
    "é ü",
    "\u{feff}bom ",
    "x\u{200b}",
];

#[test]
fn chars_and_text_round_trip() {
    let v = chars_of("faça 🔪 ok");
    assert_eq!(v.len(), 9);
    assert_eq!(v[2], 'ç');
    assert_eq!(v[5], '🔪');
    assert_eq!(text_of(&v, 0, v.len()), "faça 🔪 ok");
    assert_eq!(text_of(&v, 5, 6), "🔪");
    assert_eq!(text_of(&v, 3, 3), "");
    assert!(chars_of("").is_empty());
}

#[test]
fn trim_agrees_with_the_standard_library() {
    for s in SAMPLES {
        assert_eq!(trim(s), s.trim(), "trimming {:?}", s);
    }
    assert_eq!(trim("  a b  "), "a b");
}

#[test]
fn trim_bounds_point_at_what_is_kept() {
    let v = chars_of("x  ab \t y");
    assert_eq!(trim_bounds(&v, 1, 7), (3, 5));
    assert_eq!(trim_bounds(&v, 1, 3), (3, 3));
    assert_eq!(trim_bounds(&v, 0, v.len()), (0, v.len()));
    assert_eq!(trim_bounds(&v, 4, 4), (4, 4));
}

#[test]
fn trim_char_agrees_with_trim_matches() {
    for s in ["", "\"", "\"\"", "\"a\"", "\"\"a\"b\"\"", "a\"", " \"a\" ", "plain"] {
        assert_eq!(trim_char(s, '"'), s.trim_matches('"'), "unquoting {:?}", s);
    }
    assert_eq!(trim_char("xxaxbxx", 'x'), "axb");
}

#[test]
fn split_agrees_with_the_standard_library() {
    for s in ["", "|", "a", "a|b", " a | b |c ", "||", "a||b|", "|a", "\u{a0}a\u{a0}|\tb"] {
        let v = chars_of(s);
        let got = split_trimmed(&v, 0, v.len(), '|');
        let want: Vec<String> = s.split('|').map(|p| p.trim().to_string()).collect();
        assert_eq!(got, want, "splitting {:?}", s);
    }
    let v = chars_of("ab;cd;ef");
    assert_eq!(split_trimmed(&v, 1, 7, ';'), vec!["b", "cd", "e"]);
    assert_eq!(split_trimmed(&v, 2, 2, ';'), vec![""]);
}

#[test]
fn lines_agree_with_the_standard_library() {
    for s in [
        "",
        "\n",
        "a",
        "a\n",
        "a\nb",
        "a\r\nb\r\n",
        "a\n\nb",
        "\n\n",
        "foo\nbar\n\r\nbaz\r",
        "a\rb\n",
        "\r\n",
        "\r",
        "x\r\r\n",
    ] {
        let want: Vec<String> = s.lines().map(|l| l.to_string()).collect();
        assert_eq!(lines(s), want, "lines of {:?}", s);
    }
    assert_eq!(lines("foo\nbar\n\r\nbaz\r"), vec!["foo", "bar", "", "baz\r"]);
}

#[test]
fn words_agree_with_the_standard_library() {
    for s in SAMPLES {
        let want: Vec<String> = s.split_whitespace().map(|w| w.to_string()).collect();
        assert_eq!(words(s), want, "words of {:?}", s);
    }
    assert_eq!(words("  \"a\"  \"b c\"\t"), vec!["\"a\"", "\"b", "c\""]);
    let v = chars_of("ab cd ef");
    assert_eq!(words_of(&v, 1, 7), vec!["b", "cd", "e"]);
    assert!(words_of(&v, 2, 3).is_empty());
}

#[test]
fn searching_agrees_with_the_standard_library() {
    let texts = ["", "a", "ab", "aab", "abcabc", "segmentation fault", "ççç"];
    let patterns = ["", "a", "b", "ab", "bc", "abc", "abcabcx", "ç", "fault"];
    for s in texts {
        for p in patterns {
            let (sv, pv) = (chars_of(s), chars_of(p));
            assert_eq!(contains(&sv, &pv), s.contains(p), "{:?} contains {:?}", s, p);
            assert_eq!(starts_with(&sv, &pv), s.starts_with(p), "{:?} starts with {:?}", s, p);
            assert_eq!(ends_with(&sv, &pv), s.ends_with(p), "{:?} ends with {:?}", s, p);
        }
    }
}

#[test]
fn matches_at_tests_one_position() {
    let s = chars_of("abcabc");
    let p = chars_of("bc");
    assert!(!matches_at(&s, &p, 0));
    assert!(matches_at(&s, &p, 1));
    assert!(matches_at(&s, &p, 4));
    assert!(!matches_at(&s, &p, 5));
    assert!(!matches_at(&s, &p, 6));
    assert!(!matches_at(&s, &p, usize::MAX));
    assert!(matches_at(&s, &chars_of(""), 6));
    assert!(!matches_at(&s, &chars_of(""), 7));
}

#[test]
fn decimal_agrees_with_display() {
    for n in [0u32, 1, 9, 10, 11, 99, 100, 101, 12345, 1_000_000, u32::MAX - 1, u32::MAX] {
        assert_eq!(decimal(n), n.to_string());
    }
    assert_eq!(decimal(4294967295), "4294967295");
    let mut s = String::from("n=");
    push_decimal(&mut s, 507);
    assert_eq!(s, "n=507");
}

#[test]
fn join_agrees_with_the_standard_library() {
    let cases: [Vec<String>; 4] = [
        vec![],
        vec!["a".to_string()],
        vec!["a".to_string(), "b".to_string()],
        vec!["".to_string(), "".to_string(), "c".to_string()],
    ];
    for parts in cases {
        assert_eq!(join(&parts, "\n"), parts.join("\n"));
        assert_eq!(join(&parts, ", "), parts.join(", "));
    }
}

fn has_white_space_property(n: u32) -> bool {
    (0x0009..=0x000D).contains(&n)
        || n == 0x0020
        || n == 0x0085
        || n == 0x00A0
        || n == 0x1680
        || (0x2000..=0x200A).contains(&n)
        || n == 0x2028
        || n == 0x2029
        || n == 0x202F
        || n == 0x205F
        || n == 0x3000
}

#[test]
fn whitespace_is_the_unicode_property_for_every_character() {
    let mut found = 0;
    for n in 0..=0x10FFFFu32 {
        if let Some(c) = char::from_u32(n) {
            assert_eq!(CharClass::Whitespace.test(c), has_white_space_property(n), "U+{:04X}", n);
            assert_eq!(CharClass::Exactly('|').test(c), c == '|');
            if CharClass::Whitespace.test(c) {
                found += 1;
            }
        }
    }
    assert_eq!(found, 25);
}

#[test]
fn each_kind_of_whitespace_is_trimmed() {
    for n in 0..=0x3000u32 {
        if has_white_space_property(n) {
            let c = char::from_u32(n).unwrap();
            let v = vec![c, 'a', c, 'b', c, c];
            assert_eq!(trim_bounds(&v, 0, v.len()), (1, 4), "U+{:04X}", n);
            assert_eq!(trim_bounds_of(&v, 0, v.len(), CharClass::Exactly(c)), (1, 4));
        }
    }
    let v = vec!['\u{180e}', 'a', '\u{200b}', '\u{feff}'];
    assert_eq!(trim_bounds(&v, 0, v.len()), (0, 4));
}
