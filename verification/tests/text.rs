use omnyssh_core::text::{append_decimal, normalise};

#[test]
fn decimal_numbers_are_appended() {
    let mut text = "port ".to_string();
    append_decimal(&mut text, 0);
    text.push(' ');
    append_decimal(&mut text, 9);
    text.push(' ');
    append_decimal(&mut text, 10);
    text.push(' ');
    append_decimal(&mut text, 65535);
    text.push(' ');
    append_decimal(&mut text, 1234567890);
    text.push(' ');
    append_decimal(&mut text, u32::MAX);
    assert_eq!(text, "port 0 9 10 65535 1234567890 4294967295");
}

#[test]
fn carriage_returns_before_newlines_are_dropped() {
    assert_eq!(normalise("a\r\nb\r\n"), "a\nb\n");
    assert_eq!(normalise("\r\n\r\n"), "\n\n");
}

#[test]
fn last_line_gets_an_ending() {
    assert_eq!(normalise("a\nb"), "a\nb\n");
    assert_eq!(normalise("a"), "a\n");
    assert_eq!(normalise(""), "");
}

#[test]
fn lone_carriage_returns_stay() {
    assert_eq!(normalise("a\rb\n"), "a\rb\n");
    assert_eq!(normalise("a\r\r\n"), "a\r\n");
    assert_eq!(normalise("a\r"), "a\r\n");
    assert_eq!(normalise("\n\r"), "\n\r\n");
}

#[test]
fn text_beyond_ascii_is_kept() {
    assert_eq!(normalise("gr\u{fc}\u{df}e\r\n\u{1f600}"), "gr\u{fc}\u{df}e\n\u{1f600}\n");
}

#[test]
fn normalised_text_is_its_lines() {
    for text in ["", "\n", "\r", "a", "a\n", "a\r\nb", "\r\r\n", "a\n\nb\r", "\r\n\n\r\n"] {
        let by_lines: String = text.lines().flat_map(|line| [line, "\n"]).collect();
        assert_eq!(normalise(text), by_lines, "{:?}", text);
    }
}

#[test]
fn both_line_endings_read_the_same() {
    let text = "one\ntwo\n\nthree";
    assert_eq!(normalise(&text.replace('\n', "\r\n")), normalise(text));
}

#[test]
fn unix_text_is_left_as_it_is() {
    assert_eq!(normalise("one\ntwo\rthree\n"), "one\ntwo\rthree\n");
}
