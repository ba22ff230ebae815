use rustc_version::decimal::{decimal_text, parse_component};
use rustc_version::text::{
    chars_of, line_spans, same_text, span_after_prefix, span_is, split_spans, Span,
};

fn pieces(text: &str, sep: char) -> Vec<String> {
    let chars = chars_of(text);
    split_spans(&chars, sep).iter().map(|s| chars[s.start..s.end].iter().collect()).collect()
}

fn lines(text: &str) -> Vec<String> {
    let chars = chars_of(text);
    line_spans(&chars).iter().map(|s| chars[s.start..s.end].iter().collect()).collect()
}

#[test]
fn chars_in_order() {
    assert_eq!(chars_of("a\u{e9}\u{4e16}z"), vec!['a', '\u{e9}', '\u{4e16}', 'z']);
    assert_eq!(chars_of(""), Vec::<char>::new());
}

#[test]
fn split_at_every_separator() {
    assert_eq!(pieces("10.0", '.'), vec!["10", "0"]);
    assert_eq!(pieces("10", '.'), vec!["10"]);
    assert_eq!(pieces("", '.'), vec![""]);
    assert_eq!(pieces(".", '.'), vec!["", ""]);
    assert_eq!(pieces("a..b.", '.'), vec!["a", "", "b", ""]);
}

#[test]
fn lines_as_std_splits_them() {
    for text in [
        "",
        "\n",
        "a",
        "a\n",
        "a\nb",
        "a\n\nb\n",
        "a\r\nb\r\n",
        "a\r",
        "a\rb\n",
        "\r\n",
        "a\r\r\nb",
        "\n\n",
        "x\u{e9}y\r\n\u{4e16}",
    ] {
        let expected: Vec<String> = text.lines().map(|l| l.to_string()).collect();
        assert_eq!(lines(text), expected, "{:?}", text);
    }
}

#[test]
fn lines_of_a_banner() {
    assert_eq!(lines("rustc 1.3.0\nbinary: rustc\n"), vec!["rustc 1.3.0", "binary: rustc"]);
    assert_eq!(lines("one\r\ntwo"), vec!["one", "two"]);
    assert_eq!(lines("one\ntwo\r"), vec!["one", "two\r"]);
}

#[test]
fn prefix_of_a_span() {
    let chars = chars_of("xx host: linux");
    let span = Span { start: 3, end: 14 };
    let rest = span_after_prefix(&chars, span, "host: ").unwrap();
    assert_eq!((rest.start, rest.end), (9, 14));
    assert!(span_after_prefix(&chars, span, "host:  ").is_none());
    assert!(span_after_prefix(&chars, span, "host: linux!").is_none());
    let all = span_after_prefix(&chars, span, "host: linux").unwrap();
    assert_eq!((all.start, all.end), (14, 14));
    let none = span_after_prefix(&chars, span, "").unwrap();
    assert_eq!((none.start, none.end), (3, 14));
    assert!(span_after_prefix(&chars, Span { start: 0, end: 14 }, "host: ").is_none());
}

#[test]
fn span_against_a_word() {
    let chars = chars_of("is unknown here");
    assert!(span_is(&chars, Span { start: 3, end: 10 }, "unknown"));
    assert!(!span_is(&chars, Span { start: 3, end: 9 }, "unknown"));
    assert!(!span_is(&chars, Span { start: 3, end: 11 }, "unknown"));
    assert!(!span_is(&chars, Span { start: 2, end: 9 }, "unknown"));
    assert!(span_is(&chars, Span { start: 4, end: 4 }, ""));
}

#[test]
fn texts_compared() {
    assert!(same_text("nightly", "nightly"));
    assert!(!same_text("nightly", "nightlx"));
    assert!(!same_text("dev", "deve"));
    assert!(same_text("", ""));
}

#[test]
fn components() {
    let read = |text: &str| {
        let chars = chars_of(text);
        parse_component(&chars, Span { start: 0, end: chars.len() })
    };
    assert_eq!(read("0"), Some(0));
    assert_eq!(read("7"), Some(7));
    assert_eq!(read("1203"), Some(1203));
    assert_eq!(read("18446744073709551615"), Some(u64::MAX));
    assert_eq!(read("18446744073709551616"), None);
    assert_eq!(read("184467440737095516150"), None);
    assert_eq!(read(""), None);
    assert_eq!(read("00"), None);
    assert_eq!(read("01"), None);
    assert_eq!(read("+1"), None);
    assert_eq!(read("-1"), None);
    assert_eq!(read("1a"), None);
    assert_eq!(read(" 1"), None);
    let chars = chars_of("a42b");
    assert_eq!(parse_component(&chars, Span { start: 1, end: 3 }), Some(42));
}

#[test]
fn numbers_written() {
    assert_eq!(decimal_text(0), "0");
    assert_eq!(decimal_text(9), "9");
    assert_eq!(decimal_text(10), "10");
    assert_eq!(decimal_text(1203), "1203");
    assert_eq!(decimal_text(u64::MAX), "18446744073709551615");
}
