use std::io::Write;

use body_decoder::decoder::{DecodeError, Decoded, Decoder, DecoderKind};
use body_decoder::reader::BodyEvent;
use flate2::write::GzEncoder;
use flate2::Compression;
use hyper::header::{HeaderValue, CONTENT_ENCODING, CONTENT_LENGTH, TRANSFER_ENCODING};
use hyper::HeaderMap;

fn gzip(data: &[u8]) -> Vec<u8> {
    let mut enc = GzEncoder::new(Vec::new(), Compression::default());
    enc.write_all(data).unwrap();
    enc.finish().unwrap()
}

fn gzip_headers() -> HeaderMap {
    let mut h = HeaderMap::new();
    h.insert(CONTENT_ENCODING, HeaderValue::from_static("gzip"));
    h
}

/// Runs a decoder over the given raw chunks followed by the end of the body;
/// gives the decoded chunks and the failure, if any.
fn drive(d: &mut Decoder, chunks: Vec<Vec<u8>>) -> (Vec<Vec<u8>>, Option<DecodeError<String>>) {
    let mut events = chunks.into_iter().map(BodyEvent::Chunk).chain(std::iter::once(BodyEvent::End));
    let mut out = Vec::new();
    let mut next: Option<BodyEvent<String>> = None;
    loop {
        match d.poll_next(next.take()) {
            Decoded::Chunk(c) => out.push(c),
            Decoded::End => return (out, None),
            Decoded::Failed(e) => return (out, Some(e)),
            Decoded::NeedInput => {
                assert!(d.wants_input());
                next = Some(events.next().expect("decoder asked past the end of the body"));
            }
        }
    }
}

fn concat(chunks: &[Vec<u8>]) -> Vec<u8> {
    chunks.iter().flatten().copied().collect()
}

fn split(data: &[u8], sizes: &[usize]) -> Vec<Vec<u8>> {
    let mut out = Vec::new();
    let mut at = 0;
    for &n in sizes {
        let end = (at + n).min(data.len());
        out.push(data[at..end].to_vec());
        at = end;
    }
    if at < data.len() {
        out.push(data[at..].to_vec());
    }
    out
}

#[test]
fn without_check_gzip_is_plain_text() {
    let mut h = gzip_headers();
    h.insert(CONTENT_LENGTH, HeaderValue::from_static("12"));
    let d = Decoder::detect(&mut h, false);
    assert_eq!(d.kind(), DecoderKind::PlainText);
    assert_eq!(h.get(CONTENT_ENCODING).unwrap(), "gzip");
    assert_eq!(h.get(CONTENT_LENGTH).unwrap(), "12");
}

#[test]
fn without_check_gzip_passes_bytes_through() {
    let mut h = gzip_headers();
    let mut d = Decoder::detect(&mut h, false);
    let raw = gzip(b"abc");
    let (out, err) = drive(&mut d, vec![raw.clone()]);
    assert!(err.is_none());
    assert_eq!(out, vec![raw]);
}

#[test]
fn gzip_with_no_chunks_is_empty_plain_text() {
    let mut h = gzip_headers();
    let mut d = Decoder::detect(&mut h, true);
    assert_eq!(d.kind(), DecoderKind::Pending);
    assert!(matches!(d.poll_next::<String>(None), Decoded::NeedInput));
    assert!(matches!(d.poll_next::<String>(Some(BodyEvent::End)), Decoded::End));
    assert_eq!(d.kind(), DecoderKind::PlainText);
    assert_eq!(d.content_length(None), Some(0));
    assert!(matches!(d.poll_next::<String>(None), Decoded::End));
}

#[test]
fn gzip_with_zero_length_is_plain_text() {
    let mut h = gzip_headers();
    h.insert(CONTENT_LENGTH, HeaderValue::from_static("0"));
    let mut d = Decoder::detect(&mut h, true);
    assert_eq!(d.kind(), DecoderKind::PlainText);
    assert!(h.get(CONTENT_ENCODING).is_none());
    assert!(h.get(CONTENT_LENGTH).is_none());
    let (out, err) = drive(&mut d, vec![]);
    assert!(err.is_none());
    assert!(out.is_empty());
}

#[test]
fn hello_world_in_three_chunks() {
    let mut h = gzip_headers();
    let mut d = Decoder::detect(&mut h, true);
    assert_eq!(d.kind(), DecoderKind::Pending);
    assert!(h.get(CONTENT_ENCODING).is_none());
    let raw = gzip(b"hello world");
    let (out, err) = drive(&mut d, split(&raw, &[5, 9]));
    assert!(err.is_none());
    assert_eq!(d.kind(), DecoderKind::Gzip);
    assert_eq!(concat(&out), b"hello world".to_vec());
    assert!(out.iter().all(|c| !c.is_empty()));
}

#[test]
fn round_trip_of_larger_text() {
    let text: Vec<u8> = (0..100_000u32).map(|i| (i % 251) as u8 ^ (i / 7) as u8).collect();
    let raw = gzip(&text);
    let mut h = gzip_headers();
    let mut d = Decoder::detect(&mut h, true);
    let (out, err) = drive(&mut d, split(&raw, &[1, 2, 3, 1000, 7, 20000]));
    assert!(err.is_none());
    assert_eq!(concat(&out), text);
}

#[test]
fn chunk_boundaries_do_not_change_content() {
    let text = b"the quick brown fox jumps over the lazy dog, again and again and again".to_vec();
    let raw = gzip(&text);
    let mut h1 = gzip_headers();
    let mut one = Decoder::detect(&mut h1, true);
    let (a, e1) = drive(&mut one, vec![raw.clone()]);
    let mut h2 = gzip_headers();
    let mut many = Decoder::detect(&mut h2, true);
    let (b, e2) = drive(&mut many, raw.iter().map(|&x| vec![x]).collect());
    assert!(e1.is_none() && e2.is_none());
    assert_eq!(concat(&a), text);
    assert_eq!(concat(&b), text);
}

#[test]
fn empty_chunks_in_gzip_body_are_skipped() {
    let raw = gzip(b"xyz");
    let mut h = gzip_headers();
    let mut d = Decoder::detect(&mut h, true);
    let mut chunks = vec![Vec::new()];
    chunks.extend(split(&raw, &[4]));
    chunks.push(Vec::new());
    let (out, err) = drive(&mut d, chunks);
    assert!(err.is_none());
    assert_eq!(concat(&out), b"xyz".to_vec());
}

#[test]
fn trailing_byte_after_gzip_is_invalid_data() {
    let mut raw = gzip(b"hello world");
    raw.push(0);
    let mut h = gzip_headers();
    let mut d = Decoder::detect(&mut h, true);
    let (_, err) = drive(&mut d, vec![raw]);
    assert!(matches!(err, Some(DecodeError::TrailingData)));
}

#[test]
fn trailing_chunk_after_gzip_is_invalid_data() {
    let raw = gzip(b"hello world");
    let mut h = gzip_headers();
    let mut d = Decoder::detect(&mut h, true);
    let (out, err) = drive(&mut d, vec![raw, b"more".to_vec()]);
    assert!(matches!(err, Some(DecodeError::TrailingData)));
    assert_eq!(concat(&out), b"hello world".to_vec());
    assert!(matches!(d.poll_next::<String>(None), Decoded::End));
}

#[test]
fn truncated_gzip_fails() {
    let raw = gzip(b"hello world");
    let mut h = gzip_headers();
    let mut d = Decoder::detect(&mut h, true);
    let (_, err) = drive(&mut d, vec![raw[..raw.len() - 3].to_vec()]);
    assert!(matches!(err, Some(DecodeError::Corrupt(_))));
}

#[test]
fn malformed_gzip_fails() {
    let mut h = gzip_headers();
    let mut d = Decoder::detect(&mut h, true);
    let (_, err) = drive(&mut d, vec![b"this is not gzip at all".to_vec()]);
    assert!(matches!(err, Some(DecodeError::Corrupt(_))));
}

#[test]
fn transfer_encoding_gzip_keeps_framing_headers() {
    let mut h = HeaderMap::new();
    h.insert(TRANSFER_ENCODING, HeaderValue::from_static("gzip"));
    h.insert(CONTENT_LENGTH, HeaderValue::from_static("31"));
    let mut d = Decoder::detect(&mut h, true);
    assert_eq!(d.kind(), DecoderKind::Pending);
    assert_eq!(h.get(CONTENT_LENGTH).unwrap(), "31");
    let (out, err) = drive(&mut d, vec![gzip(b"data")]);
    assert!(err.is_none());
    assert_eq!(concat(&out), b"data".to_vec());
}

#[test]
fn gzip_among_several_encodings() {
    let mut h = HeaderMap::new();
    h.append(CONTENT_ENCODING, HeaderValue::from_static("identity"));
    h.append(CONTENT_ENCODING, HeaderValue::from_static("gzip"));
    h.insert(CONTENT_LENGTH, HeaderValue::from_static("40"));
    let d = Decoder::detect(&mut h, true);
    assert_eq!(d.kind(), DecoderKind::Pending);
    assert!(h.get(CONTENT_ENCODING).is_none());
    assert!(h.get(CONTENT_LENGTH).is_none());
}

#[test]
fn other_encoding_is_plain_text() {
    let mut h = HeaderMap::new();
    h.insert(CONTENT_ENCODING, HeaderValue::from_static("GZIP"));
    h.insert(CONTENT_LENGTH, HeaderValue::from_static("5"));
    let d = Decoder::detect(&mut h, true);
    assert_eq!(d.kind(), DecoderKind::PlainText);
    assert_eq!(h.get(CONTENT_ENCODING).unwrap(), "GZIP");
    assert_eq!(d.content_length(Some(5)), Some(5));
}

#[test]
fn body_failure_passes_through() {
    let mut h = gzip_headers();
    let mut d = Decoder::detect(&mut h, true);
    assert!(matches!(d.poll_next::<String>(None), Decoded::NeedInput));
    match d.poll_next(Some(BodyEvent::Failed("reset".to_string()))) {
        Decoded::Failed(DecodeError::Body(e)) => assert_eq!(e, "reset"),
        _ => panic!("expected the body's failure"),
    }
    assert_eq!(d.kind(), DecoderKind::Pending);
    let mut p = Decoder::detect(&mut HeaderMap::new(), true);
    match p.poll_next(Some(BodyEvent::Failed(7u8))) {
        Decoded::Failed(DecodeError::Body(e)) => assert_eq!(e, 7),
        _ => panic!("expected the body's failure"),
    }
}

#[test]
fn empty_decoder_ends_at_once() {
    let mut d = Decoder::empty();
    assert_eq!(d.kind(), DecoderKind::PlainText);
    assert!(!d.wants_input());
    assert_eq!(d.content_length(Some(9)), Some(0));
    assert!(matches!(d.poll_next::<String>(None), Decoded::End));
}

#[test]
fn content_length_unknown_while_gunzipping() {
    let mut h = gzip_headers();
    let d = Decoder::detect(&mut h, true);
    assert_eq!(d.content_length(Some(3)), None);
}
