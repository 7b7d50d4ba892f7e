use llama_core::text::{
    before, contains, ends_with, find, is_whitespace, join, occurs, replace, same, slice,
    starts_with, to_chars, to_string, trim, trim_end_matches, trim_start_matches, trim_str,
};

fn chars(text: &str) -> Vec<char> {
    text.chars().collect()
}

const SAMPLES: [&str; 14] = [
    "",
    " ",
    "a",
    "  a b  ",
    "\t\n x \r\n",
    "\u{3000}wide\u{a0}",
    "\u{85}next line\u{2028}\u{2029}",
    "\u{1680}\u{2000}mid\u{200a}\u{202f}\u{205f}",
    "\u{200b}zero width is no space\u{200b}",
    "\u{180e}mongolian vowel separator",
    "abcabcabc",
    "aaa",
    "</s></s> </s>",
    "\u{4f60}\u{597d} \u{1f600}",
];

#[test]
fn white_space_is_what_std_holds_for_it() {
    for code in 0..=0x10ffffu32 {
        if let Some(c) = char::from_u32(code) {
            assert_eq!(is_whitespace(c), c.is_whitespace(), "U+{:04X}", code);
        }
    }
}

#[test]
fn trim_is_what_std_does() {
    for sample in SAMPLES {
        assert_eq!(trim_str(sample), sample.trim(), "{:?}", sample);
        assert_eq!(trim(&chars(sample)), chars(sample.trim()), "{:?}", sample);
    }
    assert_eq!(trim_str("  a b  "), "a b");
}

#[test]
fn strings_and_characters_convert_both_ways() {
    for sample in SAMPLES {
        assert_eq!(to_chars(sample), chars(sample));
        assert_eq!(to_string(&chars(sample)), sample);
    }
    assert_eq!(to_string(&vec!['a', '\u{1f600}']), "a\u{1f600}");
    assert_eq!(join("ab", "cd"), "abcd");
    assert_eq!(join("", ""), "");
    assert!(same("abc", "abc"));
    assert!(!same("abc", "abd"));
    assert!(!same("abc", "ab"));
    assert!(same("", ""));
}

#[test]
fn searching_is_what_std_does() {
    let patterns = ["a", "abc", "bc", "</s>", " ", "aa", "x", "\u{597d}"];
    for sample in SAMPLES {
        for pattern in patterns {
            let s = chars(sample);
            let p = chars(pattern);
            let expected = sample.find(pattern).map(|i| sample[..i].chars().count());
            assert_eq!(find(&s, &p), expected, "{:?} {:?}", sample, pattern);
            assert_eq!(contains(&s, &p), sample.contains(pattern));
            assert_eq!(starts_with(&s, &p), sample.starts_with(pattern));
            assert_eq!(ends_with(&s, &p), sample.ends_with(pattern));
            assert_eq!(
                before(&s, &p),
                chars(sample.split(pattern).next().unwrap()),
                "{:?} {:?}",
                sample,
                pattern
            );
        }
    }
    assert_eq!(find(&chars("abcabc"), &chars("ca")), Some(2));
    assert_eq!(find(&chars("abc"), &chars("abcd")), None);
    assert!(occurs(&chars("abcabc"), &chars("bc"), 4));
    assert!(!occurs(&chars("abcabc"), &chars("bc"), 5));
    assert!(!occurs(&chars("abcabc"), &chars("bc"), 7));
}

#[test]
fn stripping_is_what_std_does() {
    let patterns = ["a", "abc", "</s>", " ", "aa", "bc"];
    for sample in SAMPLES {
        for pattern in patterns {
            let s = chars(sample);
            let p = chars(pattern);
            assert_eq!(
                trim_end_matches(&s, &p),
                chars(sample.trim_end_matches(pattern)),
                "{:?} {:?}",
                sample,
                pattern
            );
            assert_eq!(
                trim_start_matches(&s, &p),
                chars(sample.trim_start_matches(pattern)),
                "{:?} {:?}",
                sample,
                pattern
            );
        }
    }
    assert_eq!(trim_end_matches(&chars("xabab"), &chars("ab")), chars("x"));
    assert_eq!(trim_start_matches(&chars("ababx"), &chars("ab")), chars("x"));
    assert_eq!(trim_end_matches(&chars("abab"), &chars("")), chars("abab"));
}

#[test]
fn replacing_is_what_std_does() {
    let pairs = [("a", "b"), ("abc", ""), ("aa", "a"), (" ", "__"), ("</s>", " "), ("bc", "bcbc")];
    for sample in SAMPLES {
        for (from, to) in pairs {
            assert_eq!(
                replace(&chars(sample), &chars(from), &chars(to)),
                chars(&sample.replace(from, to)),
                "{:?} {:?} {:?}",
                sample,
                from,
                to
            );
        }
    }
    assert_eq!(replace(&chars("aaa"), &chars("aa"), &chars("b")), chars("ba"));
    assert_eq!(replace(&chars("abc"), &chars(""), &chars("x")), chars("abc"));
}

#[test]
fn parts_of_a_text() {
    let s = chars("hello");
    assert_eq!(slice(&s, 1, 3), chars("el"));
    assert_eq!(slice(&s, 0, 5), s);
    assert_eq!(slice(&s, 5, 5), chars(""));
}
