use blok::gl_debug::GlDebugMessageBuffer;

#[test]
fn flush_returns_messages_in_order_and_clears() {
    let mut buf = GlDebugMessageBuffer::new();
    buf.record(String::from("first"));
    buf.record(String::from("second"));
    let drained = buf.flush();
    assert_eq!(drained, vec![String::from("first"), String::from("second")]);
    assert_eq!(buf.flush(), Vec::<String>::new());
}
