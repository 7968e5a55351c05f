use inscribe::lines::{decode_lines, LineDecoder};
use inscribe::progress::{parse_byte_count, parse_format_line, FormatLine};

fn texts(lines: Vec<Vec<u8>>) -> Vec<String> {
    lines.into_iter().map(|l| String::from_utf8(l).unwrap()).collect()
}

#[test]
fn carriage_returns_split_lines_and_last_chunk_is_kept() {
    assert_eq!(texts(decode_lines(b"100\r200\r300")), vec!["100", "200", "300"]);
}

#[test]
fn newline_terminated_format_lines() {
    assert_eq!(texts(decode_lines(b"PERCENT 20\nMSG hi\n")), vec!["PERCENT 20", "MSG hi"]);
}

#[test]
fn adjacent_separators_give_no_empty_lines() {
    assert_eq!(texts(decode_lines(b"\r\n\na\r\n\rb\n\n")), vec!["a", "b"]);
    assert!(decode_lines(b"").is_empty());
    assert!(decode_lines(b"\r\r\n").is_empty());
}

#[test]
fn streaming_decoder_flushes_pending_bytes() {
    let mut d = LineDecoder::new();
    assert_eq!(d.feed(b'4'), None);
    assert_eq!(d.feed(b'2'), None);
    assert_eq!(d.feed(b'\r'), Some(b"42".to_vec()));
    assert_eq!(d.feed(b'\n'), None);
    assert_eq!(d.feed(b'7'), None);
    assert_eq!(d.finish(), Some(b"7".to_vec()));
    assert_eq!(d.finish(), None);
}

#[test]
fn byte_count_is_first_token() {
    assert_eq!(parse_byte_count(b"1048576"), Some(1048576));
    assert_eq!(parse_byte_count(b"  2097152 bytes (2.1 MB) copied"), Some(2097152));
    assert_eq!(parse_byte_count(b"+15"), Some(15));
    assert_eq!(parse_byte_count(b"18446744073709551615"), Some(u64::MAX));
    assert_eq!(parse_byte_count(b"18446744073709551616"), None);
    assert_eq!(parse_byte_count(b"dd: writing"), None);
    assert_eq!(parse_byte_count(b"12abc"), None);
    assert_eq!(parse_byte_count(b"+"), None);
    assert_eq!(parse_byte_count(b""), None);
}

#[test]
fn format_lines() {
    assert!(matches!(parse_format_line(b"PERCENT 20"), Some(FormatLine::Percent(20))));
    assert!(matches!(parse_format_line(b"  PERCENT 250 extra "), Some(FormatLine::Percent(100))));
    assert!(matches!(parse_format_line(b"PERCENT 300"), Some(FormatLine::Percent(100))));
    assert!(matches!(
        parse_format_line(b"PERCENT 99999999999999999999999"),
        Some(FormatLine::Percent(100))
    ));
    assert!(matches!(parse_format_line(b"PERCENT +7"), Some(FormatLine::Percent(7))));
    assert!(parse_format_line(b"PERCENT x").is_none());
    assert!(parse_format_line(b"PERCENT").is_none());
    match parse_format_line(b" MSG Creating filesystem \t") {
        Some(FormatLine::Message(m)) => assert_eq!(m, b"Creating filesystem".to_vec()),
        other => panic!("unexpected {:?}", other),
    }
    assert!(parse_format_line(b"mkfs.ext4 1.47").is_none());
}

#[test]
fn unicode_whitespace_separates_tokens() {
    assert_eq!(parse_byte_count("4096\u{a0}bytes".as_bytes()), Some(4096));
    assert_eq!(parse_byte_count("\u{3000}512\u{2009}x".as_bytes()), Some(512));
    assert!(matches!(parse_format_line("\u{a0}PERCENT 30\u{2003}".as_bytes()), Some(FormatLine::Percent(30))));
    assert!(matches!(parse_format_line("PERCENT 30\u{85}40".as_bytes()), Some(FormatLine::Percent(30))));
    match parse_format_line("\u{2028}MSG a\u{a0}b\u{3000}".as_bytes()) {
        Some(FormatLine::Message(m)) => assert_eq!(m, "a\u{a0}b".as_bytes().to_vec()),
        other => panic!("unexpected {:?}", other),
    }
    assert!(parse_format_line("MSG\u{a0}x".as_bytes()).is_none());
    assert_eq!(parse_byte_count("caf\u{e9} 12".as_bytes()), None);
}
