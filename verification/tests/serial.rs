use servify::serial::ServifyRequest;

#[test]
fn with_ctx_keeps_request_and_attaches_context() {
    let request: ServifyRequest<u8> = ServifyRequest { payload: Box::new(5u32), kind: 7u8 };
    let middle = request.with_ctx("direct");
    assert_eq!(middle.ctx, "direct");
    assert_eq!(middle.request.kind, 7);
    assert_eq!(*middle.request.payload.downcast::<u32>().unwrap(), 5);
}
