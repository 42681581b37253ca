use orbutils::text::{split_runs, Separator};

fn fields(line: &str) -> Vec<String> {
    split_runs(line, Separator::Whitespace)
}

fn lines(text: &str) -> Vec<String> {
    split_runs(text, Separator::LineFeed)
}

#[test]
fn whitespace_is_the_unicode_white_space_set() {
    let mut code: u32 = 0;
    let mut count = 0;
    while code <= 0x10ffff {
        if let Some(c) = char::from_u32(code) {
            assert_eq!(Separator::Whitespace.separates(c), c.is_whitespace(), "U+{:04X}", code);
            if c.is_whitespace() {
                count += 1;
            }
        }
        code += 1;
    }
    assert_eq!(count, 25);
}

#[test]
fn line_feed_is_the_only_line_separator() {
    assert!(Separator::LineFeed.separates('\n'));
    assert!(!Separator::LineFeed.separates('\r'));
    assert!(!Separator::LineFeed.separates(' '));
    assert!(!Separator::LineFeed.separates('\u{2028}'));
}

#[test]
fn fields_are_split_at_any_whitespace() {
    assert_eq!(fields("a b"), vec!["a", "b"]);
    assert_eq!(fields("  lead and  trail \t"), vec!["lead", "and", "trail"]);
    assert_eq!(fields("tab\tnew\nline\r\nend"), vec!["tab", "new", "line", "end"]);
    assert_eq!(fields("wide\u{3000}space\u{a0}here"), vec!["wide", "space", "here"]);
}

#[test]
fn text_without_fields() {
    assert_eq!(fields(""), Vec::<String>::new());
    assert_eq!(fields(" \t \n"), Vec::<String>::new());
}

#[test]
fn single_field() {
    assert_eq!(fields("word"), vec!["word"]);
    assert_eq!(fields("x"), vec!["x"]);
    assert_eq!(fields(" x"), vec!["x"]);
    assert_eq!(fields("x "), vec!["x"]);
}

#[test]
fn fields_agree_with_split_whitespace() {
    let samples = [
        "",
        " ",
        "a",
        "a b c",
        "  a\t\tb  ",
        "1 0 0 0 0 0 0 0 R 3 1 MB init",
        "é ü\u{2003}ß",
        "\u{85}x\u{1680}y\u{2000}z\u{200a}w\u{2028}v\u{2029}u\u{202f}t\u{205f}s",
        "zero\u{200b}width is no space",
    ];
    for sample in samples {
        let expected: Vec<String> = sample.split_whitespace().map(String::from).collect();
        assert_eq!(fields(sample), expected, "{:?}", sample);
    }
}

#[test]
fn filled_lines_skip_empty_lines() {
    assert_eq!(lines("a\nb\n"), vec!["a", "b"]);
    assert_eq!(lines("\n\na\n\n\nb"), vec!["a", "b"]);
    assert_eq!(lines(""), Vec::<String>::new());
    assert_eq!(lines("\n\n"), Vec::<String>::new());
    assert_eq!(lines("one line"), vec!["one line"]);
}

#[test]
fn filled_lines_keep_other_whitespace() {
    assert_eq!(lines(" a \r\n\tb"), vec![" a \r", "\tb"]);
    assert_eq!(lines(" \n  \n"), vec![" ", "  "]);
}

#[test]
fn filled_lines_agree_with_split_and_filter() {
    let samples = ["", "\n", "a", "a\n", "\na", "a\n\nb", "x y\n z \n\n", "é\nü\n"];
    for sample in samples {
        let expected: Vec<String> =
            sample.split("\n").filter(|l| l.len() > 0).map(String::from).collect();
        assert_eq!(lines(sample), expected, "{:?}", sample);
    }
}
