use keen::diagnostics::{line_style_of, parse_compiler_output, LineStyle};
use keen::text::{is_whitespace, lines, split_char, str_contains, str_equal, to_chars, trim};

fn strs(v: &[String]) -> Vec<&str> {
    v.iter().map(|s| s.as_str()).collect()
}

#[test]
fn lines_split_at_newlines() {
    assert_eq!(strs(&lines("a\nb")), vec!["a", "b"]);
    assert_eq!(strs(&lines("a\n\nb\n")), vec!["a", "", "b"]);
}

#[test]
fn lines_strip_carriage_return_before_newline_only() {
    assert_eq!(strs(&lines("a\r\nb\r\n")), vec!["a", "b"]);
    assert_eq!(strs(&lines("a\r")), vec!["a\r"]);
    assert_eq!(strs(&lines("x\ry\n")), vec!["x\ry"]);
}

#[test]
fn lines_of_empty_and_lone_newline() {
    assert!(lines("").is_empty());
    assert_eq!(strs(&lines("\n")), vec![""]);
}

#[test]
fn lines_agree_with_std() {
    for s in ["", "\n", "a", "a\n", "a\r\n", "\r\n\r\n", "a\rb\r\nc", "é\nü\r\nx", "\n\n\n"] {
        let ours = lines(s);
        let theirs: Vec<&str> = s.lines().collect();
        assert_eq!(strs(&ours), theirs, "input {:?}", s);
    }
}

#[test]
fn final_newline_adds_no_line() {
    assert_eq!(lines("ab\ncd\n"), lines("ab\ncd"));
    assert_eq!(lines("x\n"), lines("x"));
}

#[test]
fn lines_hold_no_newline() {
    for l in lines("a\nb\r\n\nc\rd\n") {
        assert!(!l.contains('\n'));
    }
}

#[test]
fn split_keeps_empty_fields() {
    assert_eq!(strs(&split_char("a::b", ':')), vec!["a", "", "b"]);
    assert_eq!(strs(&split_char("", ':')), vec![""]);
    assert_eq!(strs(&split_char(":a:", ':')), vec!["", "a", ""]);
    for s in ["/usr/bin:/bin", "", "::", "one"] {
        let theirs: Vec<&str> = s.split(':').collect();
        assert_eq!(strs(&split_char(s, ':')), theirs);
    }
}

#[test]
fn contains_and_equal() {
    assert!(str_contains("main.rs:3: error: boom", ": error:"));
    assert!(str_contains("anything", ""));
    assert!(!str_contains("ab", "abc"));
    assert!(!str_contains("a: warn", ": warning:"));
    assert!(str_equal("rs", "rs"));
    assert!(!str_equal("rs", "r"));
    assert_eq!(to_chars("héllo"), vec!['h', 'é', 'l', 'l', 'o']);
}

#[test]
fn trim_removes_unicode_whitespace() {
    assert_eq!(trim("  go \n"), "go");
    assert_eq!(trim("\u{A0}py\t"), "py");
    assert_eq!(trim("   "), "");
    assert_eq!(trim("a b"), "a b");
}

#[test]
fn line_styles_follow_precedence() {
    assert_eq!(line_style_of("src/main.rs:1:2: error: x | y"), Some(LineStyle::Error));
    assert_eq!(line_style_of("error[E0425]: cannot find"), Some(LineStyle::Error));
    assert_eq!(line_style_of("a.c:1: warning: unused"), Some(LineStyle::Warning));
    assert_eq!(line_style_of("a.c:1: note: here"), Some(LineStyle::Note));
    assert_eq!(line_style_of("  |     let x = 1;"), Some(LineStyle::Snippet));
    assert_eq!(line_style_of("        ^^^"), Some(LineStyle::Snippet));
    assert_eq!(line_style_of("Compiling foo v0.1.0"), None);
    assert_eq!(line_style_of(""), None);
}

#[test]
fn compiler_output_keeps_marked_lines_in_order() {
    let out = "Compiling x\nmain.c:2:5: error: expected ';'\n    2 | int x\n      |      ^\n\nmain.c:1: note: see\nmain.c:3: warning: w\r\ndone\n";
    let shown = parse_compiler_output(out);
    let got: Vec<(LineStyle, &str)> = shown.iter().map(|l| (l.style, l.text.as_str())).collect();
    assert_eq!(
        got,
        vec![
            (LineStyle::Error, "main.c:2:5: error: expected ';'"),
            (LineStyle::Snippet, "    2 | int x"),
            (LineStyle::Snippet, "      |      ^"),
            (LineStyle::Note, "main.c:1: note: see"),
            (LineStyle::Warning, "main.c:3: warning: w"),
        ]
    );
}

#[test]
fn compiler_output_without_markers_shows_nothing() {
    assert!(parse_compiler_output("all good\nnothing here\n").is_empty());
    assert!(parse_compiler_output("").is_empty());
}

#[test]
fn whitespace_agrees_with_std_on_every_char() {
    for u in 0u32..=0x10FFFF {
        if let Some(c) = char::from_u32(u) {
            assert_eq!(is_whitespace(c), c.is_whitespace(), "U+{:04X}", u);
        }
    }
}

#[test]
fn trim_agrees_with_std() {
    for s in ["  PY \n", "\u{2003}x\u{3000}", "\u{85}\u{200B}", "", "a", " \t\r\n "] {
        assert_eq!(trim(s), s.trim(), "input {:?}", s);
    }
}
