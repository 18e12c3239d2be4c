use text_viewer::buffer::{Buffer, LoadError};

fn lines_of(buffer: &Buffer) -> Vec<String> {
    let mut lines = Vec::new();
    let mut index: usize = 0;
    while let Some(line) = buffer.line(index) {
        lines.push(line.get(0..line.len()));
        index += 1;
    }
    lines
}

#[test]
fn default_buffer_is_empty() {
    let buffer = Buffer::default();
    assert!(buffer.is_empty());
    assert_eq!(buffer.line_count(), 0);
    assert!(buffer.line(0).is_none());
}

#[test]
fn from_text_splits_at_line_feeds() {
    let buffer = Buffer::from_text("abc\nde\nfghij");
    assert!(!buffer.is_empty());
    assert_eq!(buffer.line_count(), 3);
    assert_eq!(lines_of(&buffer), vec!["abc", "de", "fghij"]);
}

#[test]
fn a_final_line_feed_adds_no_empty_line() {
    assert_eq!(lines_of(&Buffer::from_text("abc\nde\n")), vec!["abc", "de"]);
    assert_eq!(lines_of(&Buffer::from_text("\n")), vec![""]);
    assert_eq!(lines_of(&Buffer::from_text("a\n\n")), vec!["a", ""]);
}

#[test]
fn empty_text_has_no_lines() {
    let buffer = Buffer::from_text("");
    assert!(buffer.is_empty());
    assert_eq!(buffer.line_count(), 0);
}

#[test]
fn empty_lines_in_the_middle_are_kept() {
    assert_eq!(lines_of(&Buffer::from_text("a\n\nb")), vec!["a", "", "b"]);
}

#[test]
fn carriage_return_before_line_feed_is_stripped() {
    assert_eq!(lines_of(&Buffer::from_text("abc\r\nde\r\n")), vec!["abc", "de"]);
    assert_eq!(lines_of(&Buffer::from_text("\r\n")), vec![""]);
}

#[test]
fn only_one_carriage_return_is_stripped() {
    assert_eq!(lines_of(&Buffer::from_text("abc\r\r\nde")), vec!["abc\r", "de"]);
}

#[test]
fn a_lone_carriage_return_stays_in_the_line() {
    assert_eq!(lines_of(&Buffer::from_text("a\rb\nc")), vec!["a\rb", "c"]);
    assert_eq!(lines_of(&Buffer::from_text("abc\r")), vec!["abc\r"]);
    assert_eq!(lines_of(&Buffer::from_text("\r")), vec!["\r"]);
}

#[test]
fn from_text_agrees_with_the_standard_line_iterator() {
    let samples = [
        "",
        "\n",
        "\r",
        "\r\n",
        "a",
        "a\n",
        "a\r\n",
        "a\nb",
        "a\r\nb\r\n",
        "\n\n\n",
        "\r\r\n\r",
        "one\ntwo\r\nthree\rfour\n\nfive",
        "héllo\nwörld\n",
        "x\r\n\r\ny\r",
    ];
    for text in samples {
        let expected: Vec<String> = text.lines().map(String::from).collect();
        assert_eq!(lines_of(&Buffer::from_text(text)), expected);
    }
}

#[test]
fn line_is_absent_beyond_the_last_row() {
    let buffer = Buffer::from_text("abc\nde");
    assert!(buffer.line(0).is_some());
    assert!(buffer.line(1).is_some());
    assert!(buffer.line(2).is_none());
    assert!(buffer.line(usize::MAX).is_none());
}

#[test]
fn line_len_is_zero_where_there_is_no_line() {
    let buffer = Buffer::from_text("abc\nde");
    assert_eq!(buffer.line_len(0), 3);
    assert_eq!(buffer.line_len(1), 2);
    assert_eq!(buffer.line_len(2), 0);
    assert_eq!(buffer.line_len(usize::MAX), 0);
}

#[test]
fn load_takes_the_lines_of_a_source_that_was_read() {
    let loaded = Buffer::load(Ok(String::from("abc\nde\n")));
    match loaded {
        Ok(buffer) => assert_eq!(lines_of(&buffer), vec!["abc", "de"]),
        Err(_) => panic!("a source that was read must load"),
    }
}

#[test]
fn load_hands_on_the_error_of_a_source_that_was_not_read() {
    assert!(matches!(Buffer::load(Err(LoadError::NotFound)), Err(LoadError::NotFound)));
    assert!(matches!(Buffer::load(Err(LoadError::Unreadable)), Err(LoadError::Unreadable)));
}
