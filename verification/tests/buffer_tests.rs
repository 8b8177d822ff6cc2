use terminal_core::buffer::TerminalBuffer;

#[test]
fn push_splits_on_newline_and_drops_carriage_returns() {
    let mut buf = TerminalBuffer::new(100);
    buf.push(b"hello\r\nwor");
    assert_eq!(buf.get_all(), vec!["hello".to_string()]);
    assert_eq!(buf.len(), 1);
    buf.push(b"ld\n");
    assert_eq!(buf.get_all(), vec!["hello".to_string(), "world".to_string()]);
}

#[test]
fn partial_line_is_not_reported_until_completed() {
    let mut buf = TerminalBuffer::new(100);
    buf.push(b"no newline yet");
    assert_eq!(buf.get_all(), Vec::<String>::new());
    assert!(buf.is_empty());
    buf.push(b"\n");
    assert_eq!(buf.get_all(), vec!["no newline yet".to_string()]);
    assert!(!buf.is_empty());
}

#[test]
fn eviction_keeps_most_recent_lines_in_order() {
    let mut buf = TerminalBuffer::new(3);
    buf.push(b"a\nb\nc\nd\ne\n");
    assert_eq!(
        buf.get_all(),
        vec!["c".to_string(), "d".to_string(), "e".to_string()]
    );
    assert_eq!(buf.len(), 3);
}

#[test]
fn get_recent_returns_last_n_oldest_first() {
    let mut buf = TerminalBuffer::new(100);
    buf.push(b"1\n2\n3\n4\n");
    assert_eq!(buf.get_recent(2), vec!["3".to_string(), "4".to_string()]);
    assert_eq!(
        buf.get_recent(10),
        vec![
            "1".to_string(),
            "2".to_string(),
            "3".to_string(),
            "4".to_string()
        ]
    );
    assert_eq!(buf.get_recent(0), Vec::<String>::new());
}

#[test]
fn clear_drops_lines_and_pending_partial() {
    let mut buf = TerminalBuffer::new(100);
    buf.push(b"done\nhalf");
    buf.clear();
    assert_eq!(buf.get_all(), Vec::<String>::new());
    assert_eq!(buf.len(), 0);
    // The pending "half" must be gone too: the next newline ends an empty line.
    buf.push(b"\n");
    assert_eq!(buf.get_all(), vec!["".to_string()]);
}

#[test]
fn second_clear_is_no_different_from_one() {
    let mut buf = TerminalBuffer::new(100);
    buf.push(b"x\ny");
    buf.clear();
    let after_once = buf.get_all();
    buf.clear();
    assert_eq!(buf.get_all(), after_once);
    assert!(buf.is_empty());
}

#[test]
fn invalid_utf8_is_replaced_not_dropped() {
    let mut buf = TerminalBuffer::new(100);
    buf.push(&[b'a', 0xff, b'b', b'\n']);
    assert_eq!(buf.get_all(), vec!["a\u{fffd}b".to_string()]);
}

#[test]
fn multibyte_character_split_across_pushes_survives() {
    let mut buf = TerminalBuffer::new(100);
    let encoded = "héllo\n".as_bytes();
    buf.push(&encoded[..3]);
    buf.push(&encoded[3..]);
    assert_eq!(buf.get_all(), vec!["héllo".to_string()]);
}

#[test]
fn zero_capacity_retains_nothing() {
    let mut buf = TerminalBuffer::new(0);
    buf.push(b"a\nb\n");
    assert_eq!(buf.get_all(), Vec::<String>::new());
    assert_eq!(buf.len(), 0);
}
