use banscii_assistant::MAX_SUBJECT_LEN;
use banscii_assistant::assembler::Assembler;
use banscii_assistant::subject::accept_subject;
use banscii_assistant::subject::is_valid_text;
use banscii_assistant::output::emit_prompt;
use banscii_assistant::output::emit_newline;

#[test]
fn prompt_text() {
    let mut out: Vec<u8> = Vec::new();
    emit_prompt(&mut out);
    assert_eq!(out, b"banscii> ".to_vec());
    emit_newline(&mut out);
    assert_eq!(out, b"banscii> \n".to_vec());
}

#[test]
fn printable_bytes_echo_and_buffer() {
    let mut assembler = Assembler::new();
    let mut out: Vec<u8> = Vec::new();
    assert!(assembler.handle_byte(b'h', &mut out).is_none());
    assert!(assembler.handle_byte(b'i', &mut out).is_none());
    assert_eq!(out, b"hi".to_vec());
    assert_eq!(assembler.buffer, b"hi".to_vec());
}

#[test]
fn non_printable_bytes_are_ignored() {
    let mut assembler = Assembler::new();
    let mut out: Vec<u8> = Vec::new();
    assert!(assembler.handle_byte(0x07, &mut out).is_none());
    assert!(assembler.handle_byte(0x80, &mut out).is_none());
    assert!(assembler.handle_byte(0x1b, &mut out).is_none());
    assert!(out.is_empty());
    assert!(assembler.buffer.is_empty());
}

#[test]
fn empty_line_just_reprompts() {
    let mut assembler = Assembler::new();
    let mut out: Vec<u8> = Vec::new();
    assert!(assembler.handle_byte(b'\n', &mut out).is_none());
    assert_eq!(out, b"\nbanscii> ".to_vec());
    out.clear();
    assert!(assembler.handle_byte(b'\r', &mut out).is_none());
    assert_eq!(out, b"\nbanscii> ".to_vec());
}

#[test]
fn carriage_return_completes_line() {
    let mut assembler = Assembler::new();
    let mut out: Vec<u8> = Vec::new();
    assembler.handle_byte(b'o', &mut out);
    assembler.handle_byte(b'k', &mut out);
    let line = assembler.handle_byte(b'\r', &mut out).expect("line should complete");
    assert_eq!(line, b"ok".to_vec());
    assert_eq!(out, b"ok\n".to_vec());
    assert!(assembler.buffer.is_empty());
    out.clear();
    assembler.resume(&mut out);
    assert_eq!(out, b"banscii> ".to_vec());
}

#[test]
fn limit_flush_on_seventeenth_byte() {
    let mut assembler = Assembler::new();
    let mut out: Vec<u8> = Vec::new();
    for _ in 0..MAX_SUBJECT_LEN {
        assert!(assembler.handle_byte(b'x', &mut out).is_none());
    }
    assert_eq!(out, vec![b'x'; MAX_SUBJECT_LEN]);
    out.clear();
    let line = assembler.handle_byte(b'y', &mut out).expect("limit byte should flush");
    assert_eq!(line, vec![b'x'; MAX_SUBJECT_LEN]);
    assert_eq!(out, b"\n(char limit reached)\n".to_vec());
    out.clear();
    assembler.resume(&mut out);
    assert_eq!(out, b"banscii> y".to_vec());
    assert_eq!(assembler.buffer, b"y".to_vec());
}

#[test]
fn limit_then_terminator_does_not_double_process() {
    let mut assembler = Assembler::new();
    let mut out: Vec<u8> = Vec::new();
    for _ in 0..MAX_SUBJECT_LEN {
        assembler.handle_byte(b'a', &mut out);
    }
    let line = assembler.handle_byte(b'b', &mut out).expect("limit byte should flush");
    assert_eq!(line.len(), MAX_SUBJECT_LEN);
    assembler.resume(&mut out);
    out.clear();
    // the buffer now holds only the byte that arrived after the flush
    let line2 = assembler.handle_byte(b'\n', &mut out).expect("line should complete");
    assert_eq!(line2, b"b".to_vec());
}

#[test]
fn invalid_text_is_reported_and_no_subject_made() {
    let mut out: Vec<u8> = Vec::new();
    // a lone continuation byte is not valid text
    let subject = accept_subject(vec![0x80], &mut out);
    assert!(subject.is_none());
    assert_eq!(out, b"error: input is not valid utf-8\n".to_vec());
}

#[test]
fn valid_text_is_accepted_unchanged() {
    let mut out: Vec<u8> = Vec::new();
    let subject = accept_subject(b"hello".to_vec(), &mut out);
    assert_eq!(subject, Some(b"hello".to_vec()));
    assert!(out.is_empty());
}

#[test]
fn utf8_validator_boundary_cases() {
    // well-formed multi-byte sequences
    assert!(is_valid_text(&vec![0xc3, 0xa9]));
    assert!(is_valid_text(&vec![0xe0, 0xa0, 0x80]));
    assert!(is_valid_text(&vec![0xed, 0x9f, 0xbf]));
    assert!(is_valid_text(&vec![0xf0, 0x90, 0x80, 0x80]));
    assert!(is_valid_text(&vec![0xf4, 0x8f, 0xbf, 0xbf]));
    // overlong, surrogate, out-of-range, truncated
    assert!(!is_valid_text(&vec![0xc0, 0x80]));
    assert!(!is_valid_text(&vec![0xc1, 0xbf]));
    assert!(!is_valid_text(&vec![0xe0, 0x9f, 0xbf]));
    assert!(!is_valid_text(&vec![0xed, 0xa0, 0x80]));
    assert!(!is_valid_text(&vec![0xf0, 0x8f, 0xbf, 0xbf]));
    assert!(!is_valid_text(&vec![0xf4, 0x90, 0x80, 0x80]));
    assert!(!is_valid_text(&vec![0xf5, 0x80, 0x80, 0x80]));
    assert!(!is_valid_text(&vec![0xc3]));
    assert!(!is_valid_text(&vec![0xe2, 0x82]));
}

#[test]
fn utf8_validator_agrees_with_std() {
    for b0 in 0..=255u8 {
        let v = vec![b0];
        assert_eq!(is_valid_text(&v), std::str::from_utf8(&v).is_ok());
    }
    for b0 in 0..=255u8 {
        for b1 in 0..=255u8 {
            let v = vec![b0, b1];
            assert_eq!(is_valid_text(&v), std::str::from_utf8(&v).is_ok());
        }
    }
    for b0 in (0..=255u8).step_by(3) {
        for b1 in (0..=255u8).step_by(5) {
            for b2 in (0..=255u8).step_by(7) {
                let v = vec![b0, b1, b2];
                assert_eq!(is_valid_text(&v), std::str::from_utf8(&v).is_ok());
            }
        }
    }
}
