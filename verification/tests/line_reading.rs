use pin_console::line::{FeedResult, LineReader};

fn feed(reader: &mut LineReader, bytes: &[u8]) -> Vec<FeedResult> {
    bytes.iter().map(|b| reader.push_byte(*b)).collect()
}

#[test]
fn a_short_line_is_delivered_without_its_newline() {
    let mut reader = LineReader::new();
    let results = feed(&mut reader, b"get 7\n");
    assert_eq!(&results[..5], &[FeedResult::Pending; 5]);
    assert_eq!(results[5], FeedResult::Line);
    assert_eq!(reader.line(), "get 7");
}

#[test]
fn an_empty_line_is_a_line() {
    let mut reader = LineReader::new();
    assert_eq!(reader.push_byte(b'\n'), FeedResult::Line);
    assert_eq!(reader.line(), "");
}

#[test]
fn the_reader_is_reusable_after_reset() {
    let mut reader = LineReader::new();
    feed(&mut reader, b"help\n");
    assert_eq!(reader.line(), "help");
    reader.reset();
    feed(&mut reader, b"temp\n");
    assert_eq!(reader.line(), "temp");
}

#[test]
fn exactly_32_characters_still_fit() {
    let mut reader = LineReader::new();
    let results = feed(&mut reader, &[b'a'; 32]);
    assert_eq!(results, vec![FeedResult::Pending; 32]);
    assert_eq!(reader.push_byte(b'\n'), FeedResult::Line);
    assert_eq!(reader.line().len(), 32);
}

#[test]
fn the_33rd_character_overflows_and_the_line_is_discarded_whole() {
    let mut reader = LineReader::new();
    feed(&mut reader, &[b'x'; 32]);
    assert_eq!(reader.push_byte(b'x'), FeedResult::Overflow);
    assert_eq!(reader.line(), "");
    // the tail of the overlong line is swallowed silently ...
    assert_eq!(feed(&mut reader, b"more\n"), vec![FeedResult::Pending; 5]);
    // ... and the next line comes through untouched
    let results = feed(&mut reader, b"led on\n");
    assert_eq!(results[6], FeedResult::Line);
    assert_eq!(reader.line(), "led on");
}

#[test]
fn carriage_returns_are_kept_as_ordinary_characters() {
    let mut reader = LineReader::new();
    feed(&mut reader, b"help\r\n");
    assert_eq!(reader.line(), "help\r");
}
