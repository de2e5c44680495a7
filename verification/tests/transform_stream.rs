use wasm_streams::readable::into_stream::IntoStream;
use wasm_streams::readable::sys::ReadableStreamReadResult;
use wasm_streams::transform::sys;
use wasm_streams::transform::TransformStream;
use wasm_streams::writable::into_sink::IntoSink;
use wasm_streams::writable::into_sink::Send;

#[test]
fn test_transform_stream_new() {
    let transform = TransformStream::from_raw(sys::TransformStream { readable: "readable", writable: "writable" });
    assert_eq!(transform.as_raw().readable, "readable");
    assert_eq!(transform.as_raw().writable, "writable");

    // Both sides are views on the one pair
    assert_eq!(**transform.readable().as_raw(), "readable");
    assert_eq!(**transform.writable().as_raw(), "writable");
    assert_eq!(**transform.readable().as_raw(), "readable");

    let raw = transform.into_raw();
    assert_eq!((raw.readable, raw.writable), ("readable", "writable"));
}

#[test]
fn test_transform_stream_sides_are_locked_by_themselves() {
    let transform = TransformStream::from_raw(sys::TransformStream { readable: 1u32, writable: 2u32 });
    let readable = transform.readable();
    let writable = transform.writable();

    // What is written to the writable side is read from the readable side.
    let acquired: Result<u32, String> = Ok(21);
    let mut sink: IntoSink<u32, u32> = writable.into_sink(acquired);
    let acquired: Result<u32, String> = Ok(11);
    let mut stream: IntoStream<u32, u32> = readable.into_stream(acquired);

    sink.ready_issued(0);
    let ready: Result<(), String> = Ok(());
    assert!(sink.ready_settled(ready).is_ok());
    let passed = match sink.start_send("Hello") {
        Send::Write(chunk) => chunk,
        _ => panic!("a healthy consumer did not write"),
    };
    stream.request_issued(0);
    let settled: Result<_, String> = Ok(ReadableStreamReadResult { done: false, value: passed });
    assert_eq!(stream.request_settled(settled), Some(Ok("Hello")));
    assert_eq!(transform.as_raw().readable, 1);
}
