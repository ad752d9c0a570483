use banscii_assistant::REGION_SIZE;
use banscii_assistant::assembler::Assembler;
use banscii_assistant::protocol::Draft;
use banscii_assistant::protocol::Reply;
use banscii_assistant::protocol::Response;
use banscii_assistant::protocol::build_request;
use banscii_assistant::protocol::decode_reply;
use banscii_assistant::protocol::Fatal;
use banscii_assistant::render::handle_reply;
use banscii_assistant::render::render_reply;
use banscii_assistant::subject::accept_subject;

#[test]
fn grid_is_row_major_with_newlines() {
    let reply = Reply {
        pixels: vec![b'a', b'b', b'c', b'd', b'e', b'f'],
        width: 3,
        height: 2,
        signature: Vec::new(),
    };
    let mut out: Vec<u8> = Vec::new();
    render_reply(&reply, &mut out);
    assert_eq!(out, b"\nabc\ndef\n\nSignature:\n\n".to_vec());
}

#[test]
fn hex_dump_is_lowercase_pairwise() {
    let reply = Reply {
        pixels: Vec::new(),
        width: 0,
        height: 0,
        signature: vec![0x00, 0x0f, 0xa5, 0xde, 0xad, 0xbe, 0xef],
    };
    let mut out: Vec<u8> = Vec::new();
    render_reply(&reply, &mut out);
    assert_eq!(out, b"\n\nSignature:\n000fa5deadbeef\n\n".to_vec());
}

#[test]
fn hex_dump_chunks_at_32_bytes() {
    // 33 bytes: one full 64-character line, then one 2-character line
    let mut sig: Vec<u8> = Vec::new();
    for i in 0..33u8 {
        sig.push(i);
    }
    let reply = Reply { pixels: Vec::new(), width: 0, height: 0, signature: sig };
    let mut out: Vec<u8> = Vec::new();
    render_reply(&reply, &mut out);
    let text = String::from_utf8(out).expect("hex dump is text");
    let lines: Vec<&str> = text.split('\n').collect();
    // "", "", "Signature:", line1, line2, "", ""
    assert_eq!(lines.len(), 7);
    assert_eq!(lines[2], "Signature:");
    assert_eq!(lines[3].len(), 64);
    assert_eq!(
        lines[3],
        "000102030405060708090a0b0c0d0e0f101112131415161718191a1b1c1d1e1f"
    );
    assert_eq!(lines[4], "20");
}

#[test]
fn hex_dump_exact_multiple_has_full_last_line() {
    let reply = Reply {
        pixels: Vec::new(),
        width: 0,
        height: 0,
        signature: vec![0xffu8; 64],
    };
    let mut out: Vec<u8> = Vec::new();
    render_reply(&reply, &mut out);
    let text = String::from_utf8(out).expect("hex dump is text");
    let lines: Vec<&str> = text.split('\n').collect();
    assert_eq!(lines.len(), 7);
    assert_eq!(lines[3], "f".repeat(64));
    assert_eq!(lines[4], "f".repeat(64));
}

#[test]
fn full_cycle_for_subject_hi() {
    // the operator types "hi" and a newline
    let mut assembler = Assembler::new();
    let mut out: Vec<u8> = Vec::new();
    assert!(assembler.handle_byte(b'h', &mut out).is_none());
    assert!(assembler.handle_byte(b'i', &mut out).is_none());
    let line = assembler.handle_byte(b'\n', &mut out).expect("line completes");
    assert_eq!(out, b"hi\n".to_vec());
    let subject = accept_subject(line, &mut out).expect("printable text is valid");
    assert_eq!(subject, b"hi".to_vec());

    // stand in for the rendering logic: some draft for that subject
    let draft = Draft { pixel_data: vec![b'H', b'I', b'h', b'i'], width: 2, height: 2 };
    let mut region_out = vec![0u8; REGION_SIZE];
    let req = build_request(&draft, &mut region_out).expect("draft fits");
    assert_eq!(req.draft_start, 0);
    assert_eq!(req.draft_size, draft.pixel_data.len());
    assert_eq!(&region_out[0..4], b"HIhi");

    // stand in for the peer: its reply placed in the in region
    let mut region_in = vec![0u8; REGION_SIZE];
    region_in[0..4].copy_from_slice(b"HIhi");
    region_in[4..8].copy_from_slice(&[0xde, 0xad, 0xbe, 0xef]);
    let resp = Response {
        height: 2,
        width: 2,
        masterpiece_start: 0,
        masterpiece_size: 4,
        signature_start: 4,
        signature_size: 4,
    };
    let reply = decode_reply(true, &resp, &region_in).expect("reply is well-formed");

    out.clear();
    render_reply(&reply, &mut out);
    assert_eq!(out, b"\nHI\nhi\n\nSignature:\ndeadbeef\n\n".to_vec());

    // exactly one prompt closes the cycle
    out.clear();
    assembler.resume(&mut out);
    assert_eq!(out, b"banscii> ".to_vec());
}

#[test]
fn oversized_reply_interval_is_rejected_before_any_copy() {
    // the peer claims a masterpiece running past the in region
    let region_in = vec![0u8; REGION_SIZE];
    let resp = Response {
        height: 1,
        width: 8,
        masterpiece_start: REGION_SIZE - 4,
        masterpiece_size: 8,
        signature_start: 0,
        signature_size: 0,
    };
    assert!(decode_reply(true, &resp, &region_in).is_err());
}

#[test]
fn handle_reply_renders_or_reports() {
    let mut region_in = vec![0u8; REGION_SIZE];
    region_in[0..2].copy_from_slice(b"ab");
    region_in[2..3].copy_from_slice(&[0x7f]);
    let resp = Response {
        height: 1,
        width: 2,
        masterpiece_start: 0,
        masterpiece_size: 2,
        signature_start: 2,
        signature_size: 1,
    };
    let mut out: Vec<u8> = Vec::new();
    assert!(handle_reply(true, &resp, &region_in, &mut out).is_ok());
    assert_eq!(out, b"\nab\n\nSignature:\n7f\n\n".to_vec());

    let mut out2: Vec<u8> = Vec::new();
    let r = handle_reply(false, &resp, &region_in, &mut out2);
    assert!(matches!(r, Err(Fatal::StatusNotOk)));
    assert!(out2.is_empty());
}
