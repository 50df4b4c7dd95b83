//! Tests for the text operations, held against the standard library's.

use zamburak::text::{
    chars_of, contains, is_blank_text, lines, lowercased, matches_text, prefix_len, starts_with,
    trim, trim_end, trim_start,
};

const SAMPLES: [&str; 24] = [
    "",
    " ",
    "\n",
    "\r\n",
    "\r",
    "a",
    "a\n",
    "a\r\n",
    "a\r",
    "a\rb\n",
    "\n\n",
    "\r\n\r\n",
    "a\n\nb",
    "a\r\r\n",
    "  lead",
    "trail \t",
    " \u{00A0}both\u{3000}\u{2028}",
    "\u{200B}zero-width\u{200B}",
    "Pub Fn ApplyPOLICY() {}",
    "ÀÉÎ stay, AZ become az [@`{",
    "+++ b/src/run.rs\n+pub struct X;\n",
    "line one\nline two\r\nline three",
    "\u{0085}\u{1680}x\u{2000}\u{200A}\u{202F}\u{205F}",
    "capabilit capability CAPABILITIES",
];

fn text_of(chars: &[char]) -> String {
    chars.iter().collect()
}

#[test]
fn characters_round_trip() {
    for sample in SAMPLES {
        let chars = chars_of(sample);
        assert_eq!(chars, sample.chars().collect::<Vec<char>>());
        assert_eq!(text_of(&chars), sample);
    }
}

#[test]
fn blank_detection_agrees_with_trimming_to_nothing() {
    for sample in SAMPLES {
        assert_eq!(is_blank_text(sample), sample.trim().is_empty(), "{sample:?}");
    }
}

#[test]
fn trimming_agrees_with_the_standard_library() {
    for sample in SAMPLES {
        let chars = chars_of(sample);
        assert_eq!(text_of(trim_start(&chars)), sample.trim_start(), "{sample:?}");
        assert_eq!(text_of(trim_end(&chars)), sample.trim_end(), "{sample:?}");
        assert_eq!(text_of(trim(&chars)), sample.trim(), "{sample:?}");
    }
}

#[test]
fn lines_agree_with_the_standard_library() {
    for sample in SAMPLES {
        let chars = chars_of(sample);
        let found: Vec<String> = lines(&chars).into_iter().map(text_of).collect();
        let expected: Vec<String> = sample.lines().map(str::to_owned).collect();
        assert_eq!(found, expected, "{sample:?}");
    }
}

#[test]
fn lines_of_a_small_document() {
    let chars = chars_of("one\r\n\ntwo\rrest\nlast\r");
    let found: Vec<String> = lines(&chars).into_iter().map(text_of).collect();
    assert_eq!(found, vec!["one", "", "two\rrest", "last\r"]);
}

#[test]
fn lower_casing_agrees_with_the_standard_library() {
    for sample in SAMPLES {
        let chars = chars_of(sample);
        assert_eq!(
            text_of(&lowercased(&chars)),
            sample.to_ascii_lowercase(),
            "{sample:?}"
        );
    }
    assert_eq!(text_of(&lowercased(&chars_of("AZaz@[Àß"))), "azaz@[Àß");
}

#[test]
fn search_agrees_with_the_standard_library() {
    let patterns = ["", "a", "\n", "\r\n", "policy", "capabilit", "X;", "line", "ne t", " "];
    for sample in SAMPLES {
        let chars = chars_of(sample);
        for pattern in patterns {
            assert_eq!(
                contains(&chars, &chars_of(pattern)),
                sample.contains(pattern),
                "{sample:?} / {pattern:?}"
            );
            assert_eq!(
                starts_with(&chars, pattern),
                sample.starts_with(pattern),
                "{sample:?} / {pattern:?}"
            );
            assert_eq!(matches_text(&chars, pattern), sample == pattern);
            assert_eq!(
                prefix_len(&chars, pattern),
                sample
                    .starts_with(pattern)
                    .then_some(pattern.chars().count())
            );
        }
    }
}

#[test]
fn search_finds_a_pattern_at_the_very_end() {
    assert!(contains(&chars_of("xxpolicy"), &chars_of("policy")));
    assert!(!contains(&chars_of("xxpolic"), &chars_of("policy")));
    assert!(contains(&chars_of(""), &chars_of("")));
    assert_eq!(prefix_len(&chars_of("+++ b/path"), "+++ b/"), Some(6));
    assert_eq!(prefix_len(&chars_of("+++ b"), "+++ b/"), None);
}
