use cortex_rust::text::{split_text, trim_text, white_space};

#[test]
fn white_space_is_what_the_standard_library_calls_so() {
    let mut count = 0;
    for code in 0..=0x10FFFFu32 {
        if let Some(c) = char::from_u32(code) {
            assert_eq!(white_space(c), c.is_whitespace(), "U+{:04X}", code);
            if white_space(c) {
                count += 1;
            }
        }
    }
    assert_eq!(count, 25);
}

#[test]
fn trimming_takes_the_white_space_off_both_ends() {
    for text in [
        "", " ", "a", " a", "a ", "  a b  ", "\t\n a \r\n", "\u{a0}x\u{3000}", " \u{2003} ",
        "a\u{200b}", "\u{feff}a", "a  b", "\n", "x\u{85}", "\u{1680}\u{2028}\u{2029}y\u{202f}\u{205f}",
    ] {
        assert_eq!(trim_text(text), text.trim(), "{:?}", text);
    }
    assert_eq!(trim_text("  step \n"), "step");
    assert_eq!(trim_text("\u{200b} a"), "\u{200b} a");
}

#[test]
fn splitting_gives_what_the_standard_library_gives() {
    let texts = [
        "", "a", "abc", "a,b,,c", ",a,", ",,", "aaa", "aaaa", "abab", "ababa", "a--b", "--", "-",
        "x\u{e9}y\u{e9}", "\u{e9}\u{e9}\u{e9}", "hello world", "  ", "a b  c",
    ];
    let separators = ["", ",", "a", "aa", "ab", "aba", "--", " ", "\u{e9}", "xyz", "hello world!"];
    for text in texts {
        for separator in separators {
            let expected: Vec<String> = text.split(separator).map(|p| p.to_string()).collect();
            assert_eq!(split_text(text, separator), expected, "{:?} by {:?}", text, separator);
        }
    }
    assert_eq!(split_text("a,b,,c", ","), vec!["a", "b", "", "c"]);
    assert_eq!(split_text("abc", ""), vec!["", "a", "b", "c", ""]);
    assert_eq!(split_text("", ""), vec!["", ""]);
    assert_eq!(split_text("", "x"), vec![""]);
    assert_eq!(split_text("aaaa", "aa"), vec!["", "", ""]);
    assert_eq!(split_text("ababa", "aba"), vec!["", "ba"]);
}
