use bytes::BytesMut;
use mcp_core::frame_codec::JsonRpcFrameCodec;

#[test]
fn decode_takes_the_first_line() {
    let mut codec = JsonRpcFrameCodec;
    let mut buf = BytesMut::from(&b"{\"a\":1}\n{\"b\":2}\npartial"[..]);
    let first = codec.decode(&mut buf).expect("a frame");
    assert_eq!(&first[..], b"{\"a\":1}");
    assert_eq!(&buf[..], b"{\"b\":2}\npartial");
    let second = codec.decode(&mut buf).expect("a frame");
    assert_eq!(&second[..], b"{\"b\":2}");
    assert!(codec.decode(&mut buf).is_none());
    assert_eq!(&buf[..], b"partial");
}

#[test]
fn decode_of_an_empty_line_is_an_empty_frame() {
    let mut codec = JsonRpcFrameCodec;
    let mut buf = BytesMut::from(&b"\nrest"[..]);
    let frame = codec.decode(&mut buf).expect("a frame");
    assert!(frame.is_empty());
    assert_eq!(&buf[..], b"rest");
}

#[test]
fn encode_appends_a_newline() {
    let mut codec = JsonRpcFrameCodec;
    let mut buf = BytesMut::from(&b"x\n"[..]);
    codec.encode(b"{}".to_vec(), &mut buf);
    assert_eq!(&buf[..], b"x\n{}\n");
}

#[test]
fn decoding_what_was_encoded_gives_it_back() {
    let mut codec = JsonRpcFrameCodec;
    let mut buf = BytesMut::new();
    codec.encode(b"{\"jsonrpc\":\"2.0\"}".to_vec(), &mut buf);
    buf.extend_from_slice(b"tail");
    let frame = codec.decode(&mut buf).expect("a frame");
    assert_eq!(&frame[..], b"{\"jsonrpc\":\"2.0\"}");
    assert_eq!(&buf[..], b"tail");
}
