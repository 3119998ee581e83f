use tracing_subscriber_wasm::{ConsoleMethod, ConsoleWriter, FlushError, Level, MakeConsoleWriter};

#[test]
fn hello_flushes_to_one_call() {
    let mut w = MakeConsoleWriter::new().make_writer_for(Level::Info);
    assert_eq!(w.write(b"hello"), 5);
    let call = w.flush().unwrap();
    assert_eq!(call.method, ConsoleMethod::Log);
    assert_eq!(call.text, "hello");
}

#[test]
fn hello_flushes_at_mapped_tier() {
    let f = MakeConsoleWriter::new().map_trace_level_to(Level::Warn);
    let mut w = f.make_writer_for(Level::Trace);
    assert_eq!(w.level(), Level::Warn);
    w.write(b"hello");
    let call = w.flush().unwrap();
    assert_eq!(call.method, ConsoleMethod::Warn);
    assert_eq!(call.text, "hello");
}

#[test]
fn two_writes_flush_as_one_text() {
    let mut w = MakeConsoleWriter::new().make_writer_for(Level::Debug);
    assert_eq!(w.write(b"he"), 2);
    assert_eq!(w.write(b"llo"), 3);
    let call = w.flush().unwrap();
    assert_eq!(call.method, ConsoleMethod::Debug);
    assert_eq!(call.text, "hello");
}

#[test]
fn invalid_utf8_is_a_data_error() {
    let mut w = MakeConsoleWriter::new().make_writer_for(Level::Error);
    w.write(&[b'h', 0xff, 0xfe]);
    assert!(matches!(w.flush(), Err(FlushError::InvalidData)));
    assert!(w.finish().is_none());
}

#[test]
fn truncated_multibyte_char_is_a_data_error() {
    let mut w = ConsoleWriter::new(Level::Info);
    w.write(&[0xc3]);
    assert!(matches!(w.flush(), Err(FlushError::InvalidData)));
    w.write(&[0xa9]);
    assert_eq!(w.flush().unwrap().text, "\u{e9}");
}

#[test]
fn multibyte_text_is_decoded() {
    let mut w = ConsoleWriter::new(Level::Info);
    w.write("h\u{e9}llo \u{1f600}".as_bytes());
    let call = w.flush().unwrap();
    assert_eq!(call.text, "h\u{e9}llo \u{1f600}");
    assert_eq!(call.text.chars().count(), 7);
}

#[test]
fn empty_buffer_flushes_empty_text() {
    let mut w = ConsoleWriter::new(Level::Warn);
    let call = w.flush().unwrap();
    assert_eq!(call.method, ConsoleMethod::Warn);
    assert_eq!(call.text, "");
}

#[test]
fn teardown_after_flush_emits_nothing() {
    let mut w = ConsoleWriter::new(Level::Info);
    w.write(b"hello");
    assert!(w.flush().is_ok());
    assert!(w.finish().is_none());
}

#[test]
fn flush_twice_emits_same_call_twice() {
    let mut w = ConsoleWriter::new(Level::Error);
    w.write(b"hello");
    let first = w.flush().unwrap();
    let second = w.flush().unwrap();
    assert_eq!(first.method, ConsoleMethod::Error);
    assert_eq!(second.method, first.method);
    assert_eq!(second.text, first.text);
    assert!(w.finish().is_none());
}

#[test]
fn teardown_without_flush_emits_once() {
    let mut w = ConsoleWriter::new(Level::Trace);
    w.write(b"hello");
    let call = w.finish().unwrap();
    assert_eq!(call.method, ConsoleMethod::Trace);
    assert_eq!(call.text, "hello");
    assert!(w.finish().is_none());
}

#[test]
fn write_after_flush_is_emitted_on_teardown() {
    let mut w = ConsoleWriter::new(Level::Info);
    w.write(b"he");
    assert!(w.flush().is_ok());
    w.write(b"llo");
    let call = w.finish().unwrap();
    assert_eq!(call.text, "hello");
}

#[test]
fn trace_and_debug_use_different_operations() {
    let f = MakeConsoleWriter::new();
    let mut t = f.make_writer_for(Level::Trace);
    let mut d = f.make_writer_for(Level::Debug);
    t.write(b"hello");
    d.write(b"hello");
    let tc = t.flush().unwrap();
    let dc = d.flush().unwrap();
    assert_eq!(tc.method, ConsoleMethod::Trace);
    assert_eq!(dc.method, ConsoleMethod::Debug);
    assert_ne!(tc.method, dc.method);
}

#[test]
fn console_method_of_each_tier() {
    assert_eq!(Level::Trace.console_method(), ConsoleMethod::Trace);
    assert_eq!(Level::Debug.console_method(), ConsoleMethod::Debug);
    assert_eq!(Level::Info.console_method(), ConsoleMethod::Log);
    assert_eq!(Level::Warn.console_method(), ConsoleMethod::Warn);
    assert_eq!(Level::Error.console_method(), ConsoleMethod::Error);
}
