use mcli::stream::{emit_chunk, Emit, StreamMode};

#[test]
fn raw_chunks_pass_through_in_order() {
    let chunks: Vec<Vec<u8>> = vec![b"first\n".to_vec(), vec![0xff, 0x00], b"".to_vec(), b"last".to_vec()];
    let out: Vec<Emit> = chunks.iter().map(|c| emit_chunk(StreamMode::Raw, c.clone())).collect();
    let expected: Vec<Emit> = chunks.into_iter().map(Emit::Bytes).collect();
    assert_eq!(out, expected);
}

#[test]
fn text_chunks_are_decoded() {
    assert_eq!(emit_chunk(StreamMode::Text, b"[INFO] Done".to_vec()), Emit::Text("[INFO] Done\n".to_string()));
    assert_eq!(emit_chunk(StreamMode::Text, "héllo".as_bytes().to_vec()), Emit::Text("héllo\n".to_string()));
    assert_eq!(emit_chunk(StreamMode::Text, vec![]), Emit::Text("\n".to_string()));
}

#[test]
fn text_chunk_that_is_not_utf8() {
    assert_eq!(emit_chunk(StreamMode::Text, vec![0x66, 0xff]), Emit::Invalid);
    assert_eq!(emit_chunk(StreamMode::Text, vec![0xc3]), Emit::Invalid);
}

#[test]
fn text_stream_in_delivery_order() {
    let chunks = ["a", "b", "c"];
    let out: Vec<Emit> = chunks.iter().map(|c| emit_chunk(StreamMode::Text, c.as_bytes().to_vec())).collect();
    assert_eq!(
        out,
        vec![Emit::Text("a\n".to_string()), Emit::Text("b\n".to_string()), Emit::Text("c\n".to_string())]
    );
}
