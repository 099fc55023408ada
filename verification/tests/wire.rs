use bytes::{BufMut, BytesMut};
use shared_lib::socket::codec::{decode_variant, encode_variant, CodecError};
use shared_lib::socket::frame::{put_frame, take_frame};
use shared_lib::socket::wire::{read_variant, write_variant, Variant, Vocabulary};

#[test]
fn text_of_a_heartbeat() {
    assert_eq!(write_variant(Vocabulary::Upstream, &Variant::Ping), b"\"Ping\"".to_vec());
    assert_eq!(write_variant(Vocabulary::Downstream, &Variant::Ping), b"\"Ping\"".to_vec());
}

#[test]
fn text_of_a_payload() {
    assert_eq!(
        write_variant(Vocabulary::Upstream, &Variant::Payload("x\ty".to_string())),
        b"{\"GetUser\":\"x\\ty\"}".to_vec()
    );
    assert_eq!(
        write_variant(Vocabulary::Downstream, &Variant::Payload("x\ty".to_string())),
        b"{\"User\":\"x\\ty\"}".to_vec()
    );
}

#[test]
fn reading_undoes_escapes() {
    assert_eq!(
        read_variant(Vocabulary::Downstream, b"{\"User\":\"x\\ty\\u00e9\"}"),
        Some(Variant::Payload("x\ty\u{e9}".to_string()))
    );
    assert_eq!(read_variant(Vocabulary::Downstream, b"\"Ping\""), Some(Variant::Ping));
    assert_eq!(read_variant(Vocabulary::Downstream, b"{\"GetUser\":\"x\"}"), None);
    assert_eq!(read_variant(Vocabulary::Upstream, b"{\"User\":\"x\"}"), None);
    assert_eq!(read_variant(Vocabulary::Upstream, b""), None);
}

#[test]
fn frame_of_a_payload() {
    let mut buf = BytesMut::new();
    put_frame(&mut buf, b"hello");
    assert_eq!(&buf[..], b"\0\x05hello");
    put_frame(&mut buf, b"");
    assert_eq!(&buf[..], b"\0\x05hello\0\0");
    let long = vec![7u8; 0x1234];
    let mut buf = BytesMut::new();
    put_frame(&mut buf, &long);
    assert_eq!(buf[0], 0x12);
    assert_eq!(buf[1], 0x34);
    assert_eq!(&buf[2..], &long[..]);
}

#[test]
fn taking_a_frame_leaves_the_rest() {
    let mut buf = BytesMut::new();
    buf.put(&b"\0\x03abc\0\x02de\0"[..]);
    let first = take_frame(&mut buf).unwrap();
    assert_eq!(&first[..], b"abc");
    assert_eq!(&buf[..], b"\0\x02de\0");
    let second = take_frame(&mut buf).unwrap();
    assert_eq!(&second[..], b"de");
    assert_eq!(&buf[..], b"\0");
    assert!(take_frame(&mut buf).is_none());
    assert_eq!(&buf[..], b"\0");
}

#[test]
fn taking_a_frame_reads_the_length_high_byte_first() {
    let mut buf = BytesMut::new();
    buf.put(&[0x01u8, 0x00][..]);
    buf.put(&vec![9u8; 255][..]);
    assert!(take_frame(&mut buf).is_none());
    assert_eq!(buf.len(), 257);
    buf.put(&[9u8, 1, 2][..]);
    let payload = take_frame(&mut buf).unwrap();
    assert_eq!(payload.len(), 256);
    assert_eq!(&buf[..], &[1u8, 2]);
}

#[test]
fn variant_codec_round_trip() {
    let mut buf = BytesMut::new();
    let v = Variant::Payload("p".to_string());
    assert_eq!(encode_variant(Vocabulary::Upstream, &v, &mut buf), Ok(()));
    assert_eq!(decode_variant(Vocabulary::Upstream, &mut buf), Ok(Some(v)));
    assert_eq!(decode_variant(Vocabulary::Upstream, &mut buf), Ok(None));
    buf.put(&b"\0\x01x"[..]);
    assert_eq!(decode_variant(Vocabulary::Upstream, &mut buf), Err(CodecError::InvalidPayload));
}
