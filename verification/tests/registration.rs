//! Registration with the process-wide logging facade is single-shot: the
//! facade accepts one sink per process, and a second attempt reports a
//! failure that the caller may ignore, so the application keeps running.

struct NullSink;

impl log::Log for NullSink {
    fn enabled(&self, _metadata: &log::Metadata) -> bool {
        false
    }

    fn log(&self, _record: &log::Record) {}

    fn flush(&self) {}
}

#[test]
fn second_registration_fails() {
    let first: &'static NullSink = Box::leak(Box::new(NullSink));
    let second: &'static NullSink = Box::leak(Box::new(NullSink));
    assert!(log::set_logger(first).is_ok());
    assert!(log::set_logger(second).is_err());
    // The failure is a value handed back, not a crash: execution continues.
    let logger = call_logger::CallLogger::new();
    assert_eq!(logger.call_target, "echo");
}
