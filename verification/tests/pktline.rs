use git_server::pktline::{encode_pkt_line, push_flush, MAX_PKT_PAYLOAD};

#[test]
fn header_counts_itself_in_four_hex_digits() {
    assert_eq!(encode_pkt_line(b""), Some(b"0004".to_vec()));
    assert_eq!(encode_pkt_line(b"a"), Some(b"0005a".to_vec()));
    assert_eq!(encode_pkt_line(b"hello\n"), Some(b"000ahello\n".to_vec()));
    assert_eq!(
        encode_pkt_line(b"# service=git-upload-pack\n"),
        Some(b"001e# service=git-upload-pack\n".to_vec())
    );
    assert_eq!(
        encode_pkt_line(b"# service=git-receive-pack\n"),
        Some(b"001f# service=git-receive-pack\n".to_vec())
    );
}

#[test]
fn header_digits_are_lower_case() {
    let line = encode_pkt_line(&vec![0u8; 0xabc - 4]).unwrap();
    assert_eq!(&line[..4], b"0abc");
    let line = encode_pkt_line(&vec![7u8; 0xdef0 - 4]).unwrap();
    assert_eq!(&line[..4], b"def0");
    assert_eq!(line.len(), 0xdef0);
    assert!(line[4..].iter().all(|b| *b == 7));
}

#[test]
fn declared_length_is_that_of_the_line() {
    for n in [0usize, 1, 11, 12, 15, 16, 251, 252, 4091, 4092, 65530, 65531] {
        let payload: Vec<u8> = (0..n).map(|i| (i % 251) as u8).collect();
        let line = encode_pkt_line(&payload).unwrap();
        let header = std::str::from_utf8(&line[..4]).unwrap();
        assert_eq!(usize::from_str_radix(header, 16).unwrap(), n + 4);
        assert_eq!(line.len(), n + 4);
        assert_eq!(&line[4..], &payload[..]);
    }
}

#[test]
fn longest_payload_fits_and_one_more_byte_does_not() {
    assert_eq!(MAX_PKT_PAYLOAD, 65531);
    let line = encode_pkt_line(&vec![b'x'; MAX_PKT_PAYLOAD]).unwrap();
    assert_eq!(&line[..4], b"ffff");
    assert_eq!(encode_pkt_line(&vec![b'x'; MAX_PKT_PAYLOAD + 1]), None);
    assert_eq!(encode_pkt_line(&vec![b'x'; 100000]), None);
}

#[test]
fn flush_marker_is_four_zeros() {
    let mut lines = Vec::new();
    push_flush(&mut lines);
    assert_eq!(lines, b"0000");
    let mut lines = encode_pkt_line(b"x").unwrap();
    push_flush(&mut lines);
    assert_eq!(lines, b"0005x0000");
}
