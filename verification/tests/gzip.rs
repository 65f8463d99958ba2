use flate2::write::ZlibEncoder;
use flate2::Compression;
use git_server::gzip::is_gzip_encoding;
use git_server::{DecodeError, MaybeGzip};
use std::io::Write;

fn deflate(plain: &[u8], level: Compression) -> Vec<u8> {
    let mut encoder = ZlibEncoder::new(Vec::new(), level);
    encoder.write_all(plain).unwrap();
    encoder.finish().unwrap()
}

fn bytes(r: Result<MaybeGzip, DecodeError>) -> Result<Vec<u8>, DecodeError> {
    r.map(|body| body.into_bytes())
}

fn sample() -> Vec<u8> {
    let mut plain = b"0032want 7f1c2d3e4f5a6b7c8d9e0f1a2b3c4d5e6f7a8b9c\n00000009done\n".to_vec();
    for i in 0..2000u32 {
        plain.push((i * 31 % 256) as u8);
    }
    plain
}

#[test]
fn compressed_body_is_inflated() {
    let plain = sample();
    for level in [Compression::none(), Compression::fast(), Compression::default(), Compression::best()] {
        let sent = deflate(&plain, level);
        assert_ne!(sent, plain);
        assert_eq!(bytes(MaybeGzip::decode(sent, Some("gzip"), 1 << 20)), Ok(plain.clone()));
    }
}

#[test]
fn empty_body_round_trips() {
    let sent = deflate(b"", Compression::default());
    assert!(!sent.is_empty());
    assert_eq!(bytes(MaybeGzip::decode(sent, Some("gzip"), 1024)), Ok(Vec::new()));
}

#[test]
fn zlib_decode_inflates() {
    let plain = sample();
    let sent = deflate(&plain, Compression::default());
    assert_eq!(MaybeGzip::zlib_decode(&sent).map(|b| b.into_bytes()), Some(plain));
    assert!(MaybeGzip::zlib_decode(b"not a zlib stream").is_none());
    assert!(MaybeGzip::zlib_decode(b"").is_none());
}

#[test]
fn truncated_body_is_corrupt() {
    let plain = sample();
    let sent = deflate(&plain, Compression::default());
    for keep in [0, 1, 2, 3, sent.len() / 2, sent.len() - 5, sent.len() - 1] {
        let cut = sent[..keep].to_vec();
        assert_eq!(bytes(MaybeGzip::decode(cut, Some("gzip"), 1 << 20)), Err(DecodeError::Corrupt));
    }
}

#[test]
fn damaged_body_is_corrupt() {
    let plain = sample();
    let sent = deflate(&plain, Compression::default());

    let mut bad_header = sent.clone();
    bad_header[0] ^= 0x0f;
    assert_eq!(bytes(MaybeGzip::decode(bad_header, Some("gzip"), 1 << 20)), Err(DecodeError::Corrupt));

    let mut bad_checksum = sent.clone();
    let last = bad_checksum.len() - 1;
    bad_checksum[last] ^= 0xff;
    assert_eq!(bytes(MaybeGzip::decode(bad_checksum, Some("gzip"), 1 << 20)), Err(DecodeError::Corrupt));

    assert_eq!(
        bytes(MaybeGzip::decode(b"plainly no stream".to_vec(), Some("gzip"), 1 << 20)),
        Err(DecodeError::Corrupt)
    );
    assert_eq!(
        bytes(MaybeGzip::decode(vec![0xffu8; 64], Some("gzip"), 1 << 20)),
        Err(DecodeError::Corrupt)
    );
}

#[test]
fn body_without_the_signal_passes_unchanged() {
    let plain = sample();
    assert_eq!(bytes(MaybeGzip::decode(plain.clone(), None, 1 << 20)), Ok(plain.clone()));
    assert_eq!(bytes(MaybeGzip::decode(plain.clone(), Some("identity"), 1 << 20)), Ok(plain.clone()));
    assert_eq!(bytes(MaybeGzip::decode(plain.clone(), Some(""), 1 << 20)), Ok(plain.clone()));
    let sent = deflate(&plain, Compression::default());
    assert_eq!(bytes(MaybeGzip::decode(sent.clone(), None, 1 << 20)), Ok(sent.clone()));
    assert_eq!(bytes(MaybeGzip::decode(sent.clone(), Some("deflate"), 1 << 20)), Ok(sent));
    assert_eq!(bytes(MaybeGzip::decode(Vec::new(), None, 0)), Ok(Vec::new()));
}

#[test]
fn too_long_a_body_is_refused_before_it_is_read() {
    let plain = sample();
    let sent = deflate(&plain, Compression::default());
    let n = sent.len();
    assert_eq!(bytes(MaybeGzip::decode(sent.clone(), Some("gzip"), n - 1)), Err(DecodeError::TooLarge));
    assert_eq!(bytes(MaybeGzip::decode(sent.clone(), Some("gzip"), n)), Ok(plain.clone()));
    assert_eq!(bytes(MaybeGzip::decode(sent.clone(), None, n - 1)), Err(DecodeError::TooLarge));
    assert_eq!(bytes(MaybeGzip::decode(sent.clone(), None, 0)), Err(DecodeError::TooLarge));
    assert_eq!(
        bytes(MaybeGzip::decode(b"no stream".to_vec(), Some("gzip"), 3)),
        Err(DecodeError::TooLarge)
    );
}

#[test]
fn inflated_body_may_be_longer_than_the_limit() {
    let plain = vec![b'a'; 100_000];
    let sent = deflate(&plain, Compression::best());
    assert!(sent.len() < 1000);
    assert_eq!(bytes(MaybeGzip::decode(sent, Some("gzip"), 1000)), Ok(plain));
}

#[test]
fn gzip_is_the_signal_in_any_case() {
    for signal in ["gzip", "GZIP", "Gzip", "gZiP"] {
        assert!(is_gzip_encoding(Some(signal)));
    }
    for other in ["", "gzi", "gzipp", " gzip", "gzip ", "x-gzip", "deflate", "zlib", "identity", "br", "g\u{17f}ip"] {
        assert!(!is_gzip_encoding(Some(other)));
    }
    assert!(!is_gzip_encoding(None));
}

#[test]
fn decode_inflated_decides_on_given_values() {
    let sent = vec![1u8, 2, 3];
    let plain = vec![9u8, 8, 7, 6];
    assert_eq!(
        bytes(MaybeGzip::decode_inflated(sent.clone(), Some("gzip"), 3, Some(plain.clone()))),
        Ok(plain.clone())
    );
    assert_eq!(
        bytes(MaybeGzip::decode_inflated(sent.clone(), Some("gzip"), 3, None)),
        Err(DecodeError::Corrupt)
    );
    assert_eq!(
        bytes(MaybeGzip::decode_inflated(sent.clone(), Some("gzip"), 2, Some(plain.clone()))),
        Err(DecodeError::TooLarge)
    );
    assert_eq!(
        bytes(MaybeGzip::decode_inflated(sent.clone(), None, 3, Some(plain.clone()))),
        Ok(sent.clone())
    );
    assert_eq!(bytes(MaybeGzip::decode_inflated(sent.clone(), None, 3, None)), Ok(sent.clone()));
    assert_eq!(
        bytes(MaybeGzip::decode_inflated(sent.clone(), Some("br"), 2, None)),
        Err(DecodeError::TooLarge)
    );
}

#[test]
fn input_of_the_service_is_limited_too() {
    let plain = vec![b'a'; 5000];
    let sent = deflate(&plain, Compression::best());
    let body = MaybeGzip::decode(sent, Some("gzip"), 4096).unwrap();
    assert_eq!(body.into_input(4999), Err(DecodeError::TooLarge));
    let body = MaybeGzip(plain.clone());
    assert_eq!(body.into_input(5000), Ok(plain));
    assert_eq!(MaybeGzip(Vec::new()).into_input(0), Ok(Vec::new()));
    assert_eq!(MaybeGzip(vec![1]).into_input(0), Err(DecodeError::TooLarge));
}
