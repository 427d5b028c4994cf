//! Line reading and normalization on caller-supplied sources.

use readpass::{normalize, read_password_from_source, ByteSource, Error, LineAccumulator};

#[test]
fn can_read_from_redirected_input_many_times() {
    let mut reader_crlf = ByteSource::new(b"A mocked response.\r\nAnother mocked response.\r\n".to_vec());

    let response = read_password_from_source(&mut reader_crlf).unwrap();
    assert_eq!(response.as_bytes(), &b"A mocked response."[..]);
    let response = read_password_from_source(&mut reader_crlf).unwrap();
    assert_eq!(response.as_bytes(), &b"Another mocked response."[..]);

    let mut reader_lf = ByteSource::new(b"A mocked response.\nAnother mocked response.\n".to_vec());
    let response = read_password_from_source(&mut reader_lf).unwrap();
    assert_eq!(response.as_bytes(), &b"A mocked response."[..]);
    let response = read_password_from_source(&mut reader_lf).unwrap();
    assert_eq!(response.as_bytes(), &b"Another mocked response."[..]);
}

#[test]
fn can_read_from_input_ctrl_u() {
    let mut reader_ctrl_u = ByteSource::new(b"A mocked response.\x15Another mocked response.\n".to_vec());
    let response = read_password_from_source(&mut reader_ctrl_u).unwrap();
    assert_eq!(response.as_bytes(), &b"Another mocked response."[..]);

    let mut reader_ctrl_u_at_end = ByteSource::new(b"A mocked response.\x15\n".to_vec());
    let response = read_password_from_source(&mut reader_ctrl_u_at_end).unwrap();
    assert_eq!(response.as_bytes(), &b""[..]);
}

#[test]
fn crlf_lines_trim_both_terminators() {
    let mut src = ByteSource::new(b"A.\r\nB.\r\n".to_vec());
    let first = read_password_from_source(&mut src).unwrap();
    assert_eq!(first.as_bytes(), &b"A."[..]);
    let second = read_password_from_source(&mut src).unwrap();
    assert_eq!(second.as_bytes(), &b"B."[..]);
}

#[test]
fn lf_lines_trim_terminator() {
    let mut src = ByteSource::new(b"A.\nB.\n".to_vec());
    let first = read_password_from_source(&mut src).unwrap();
    assert_eq!(first.as_bytes(), &b"A."[..]);
    let second = read_password_from_source(&mut src).unwrap();
    assert_eq!(second.as_bytes(), &b"B."[..]);
}

#[test]
fn repeated_reads_advance_and_never_reread() {
    let mut src = ByteSource::new(b"one\ntwo\nthree\n".to_vec());
    assert_eq!(src.pos, 0);
    let first = read_password_from_source(&mut src).unwrap();
    assert_eq!(first.as_bytes(), &b"one"[..]);
    assert_eq!(src.pos, 4);
    let second = read_password_from_source(&mut src).unwrap();
    assert_eq!(second.as_bytes(), &b"two"[..]);
    assert_eq!(src.pos, 8);
    let third = read_password_from_source(&mut src).unwrap();
    assert_eq!(third.as_bytes(), &b"three"[..]);
    assert_eq!(src.pos, 14);
    // The source is exhausted: further reads stay at the end and yield
    // empty secrets, never a consumed byte again.
    let fourth = read_password_from_source(&mut src).unwrap();
    assert_eq!(fourth.as_bytes(), &b""[..]);
    assert_eq!(src.pos, 14);
}

#[test]
fn line_kill_keeps_only_suffix() {
    let mut src = ByteSource::new(b"A.\x15B.\n".to_vec());
    let response = read_password_from_source(&mut src).unwrap();
    assert_eq!(response.as_bytes(), &b"B."[..]);
}

#[test]
fn line_kill_at_end_yields_empty() {
    let mut src = ByteSource::new(b"A.\x15\n".to_vec());
    let response = read_password_from_source(&mut src).unwrap();
    assert_eq!(response.as_bytes(), &b""[..]);
}

#[test]
fn multiple_line_kills_keep_text_after_last() {
    let mut src = ByteSource::new(b"first\x15second\x15third\n".to_vec());
    let response = read_password_from_source(&mut src).unwrap();
    assert_eq!(response.as_bytes(), &b"third"[..]);
}

#[test]
fn empty_line_yields_empty_secret() {
    let mut src = ByteSource::new(b"\n".to_vec());
    let response = read_password_from_source(&mut src).unwrap();
    assert_eq!(response.as_bytes(), &b""[..]);
    assert!(response.is_empty());
}

#[test]
fn end_of_input_without_newline_is_a_truncated_line() {
    // The chosen policy: a line cut short by end of input is returned as
    // read, not reported as an error.
    let mut src = ByteSource::new(b"abc".to_vec());
    let response = read_password_from_source(&mut src).unwrap();
    assert_eq!(response.as_bytes(), &b"abc"[..]);
}

#[test]
fn trailing_carriage_return_alone_is_trimmed() {
    let mut src = ByteSource::new(b"abc\r".to_vec());
    let response = read_password_from_source(&mut src).unwrap();
    assert_eq!(response.as_bytes(), &b"abc"[..]);
}

#[test]
fn empty_source_yields_empty_secret() {
    let mut src = ByteSource::new(Vec::new());
    let response = read_password_from_source(&mut src).unwrap();
    assert_eq!(response.as_bytes(), &b""[..]);
}

#[test]
fn failing_source_reports_read_error_and_consumes_nothing() {
    let mut src = ByteSource::new_failing(b"secret\n".to_vec());
    let result = read_password_from_source(&mut src);
    assert!(matches!(result, Err(Error::Read)));
    assert_eq!(src.pos, 0);
}

#[test]
fn accumulator_completes_at_line_feed() {
    let mut acc = LineAccumulator::new();
    assert!(!acc.accept(b'p'));
    assert!(!acc.accept(b'w'));
    assert!(acc.accept(b'\n'));
    let raw = acc.finish();
    assert_eq!(raw.as_bytes(), &b"pw\n"[..]);
    let secret = normalize(raw);
    assert_eq!(secret.as_bytes(), &b"pw"[..]);
}

#[test]
fn accumulator_keeps_a_line_cut_short_by_end_of_input() {
    let mut acc = LineAccumulator::new();
    assert!(!acc.accept(b'a'));
    let secret = normalize(acc.finish());
    assert_eq!(secret.as_bytes(), &b"a"[..]);
}

#[test]
fn source_hands_its_bytes_back() {
    let mut src = ByteSource::new(b"pw\n".to_vec());
    let _ = read_password_from_source(&mut src).unwrap();
    let data = src.into_data();
    assert_eq!(data, b"pw\n".to_vec());
}
