use network_communicator::error::Cause;
use network_communicator::event_loop::EventLoopError;
use network_communicator::TaskError;
use std::io::{Error as IoError, ErrorKind};

#[test]
fn task_error_descriptions() {
    let io: TaskError<()> = TaskError::IOError { error: IoError::new(ErrorKind::Other, "disk") };
    let curl: TaskError<()> = TaskError::Curl { error: curl::Error::new(7) };
    let init: TaskError<u8> = TaskError::Initialize { error: 3 };
    assert_eq!(io.description(), "IOError");
    assert_eq!(curl.description(), "Curl error");
    assert_eq!(init.description(), "Initialize error");
}

#[test]
fn task_error_debug_messages() {
    let error = IoError::new(ErrorKind::Other, "disk");
    let expected = format!("IOError: {:?}", error);
    let io: TaskError<()> = TaskError::IOError { error };
    assert_eq!(io.debug_message(), expected);
    let inner = curl::Error::new(7);
    let expected = format!("Curl error: {:?}", inner);
    let curl: TaskError<()> = TaskError::Curl { error: inner };
    assert_eq!(curl.debug_message(), expected);
    let init: TaskError<u8> = TaskError::Initialize { error: 3 };
    assert_eq!(init.debug_message(), "Initialize error");
    assert_eq!(init.debug_message_with("ignored"), "Initialize error");
    assert_eq!(curl.debug_message_with("x"), "Curl error: x");
}

#[test]
fn task_error_causes() {
    let io: TaskError<()> = TaskError::IOError { error: IoError::new(ErrorKind::Other, "disk") };
    assert!(matches!(io.cause(), Some(Cause::Io(e)) if e.kind() == ErrorKind::Other));
    let curl: TaskError<()> = TaskError::Curl { error: curl::Error::new(28) };
    assert!(matches!(curl.cause(), Some(Cause::Curl(e)) if e.code() == 28));
    let init: TaskError<u8> = TaskError::Initialize { error: 3 };
    assert!(init.cause().is_none());
}

#[test]
fn task_error_from_outside_errors() {
    let from_io: TaskError<()> = TaskError::from(IoError::new(ErrorKind::Other, "x"));
    assert!(matches!(from_io, TaskError::IOError { .. }));
    let from_curl: TaskError<()> = curl::Error::new(3).into();
    assert!(matches!(from_curl, TaskError::Curl { ref error } if error.code() == 3));
}

fn all_event_loop_errors() -> Vec<(EventLoopError, &'static str, bool)> {
    let io = || IoError::new(ErrorKind::Other, "poll");
    let multi = || curl::MultiError::new(1);
    vec![
        (EventLoopError::PollInit { error: io() }, "PollInit", true),
        (EventLoopError::PollRegister { error: io() }, "PollRegister", true),
        (EventLoopError::PollReRegister { error: io() }, "PollReRegister", true),
        (EventLoopError::PollPooling { error: io() }, "PollPooling", true),
        (EventLoopError::UnableAddToken, "UnableAddToken", false),
        (EventLoopError::UnableRemoveToken, "UnableRemoveToken", false),
        (EventLoopError::CurlMultiInitSocket { error: multi() }, "CurlMultiInitSocket", true),
        (EventLoopError::CurlMultiInitTimeout { error: multi() }, "CurlMultiInitTimeout", true),
        (EventLoopError::CurlMultiAssign { error: multi() }, "CurlMultiAssign", true),
        (EventLoopError::CurlMultiAction { error: multi() }, "CurlMultiAction", true),
        (EventLoopError::CurlMultiAdd { error: multi() }, "CurlMultiAdd", true),
        (EventLoopError::CurlMultiRemove { error: multi() }, "CurlMultiRemove", true),
        (EventLoopError::CurlSetToken { error: curl::Error::new(2) }, "CurlSetToken", true),
        (EventLoopError::CurlMultiPeroform { error: multi() }, "CurlMultiPeroform", true),
        (EventLoopError::SendResultError, "SendResultError", false),
    ]
}

#[test]
fn event_loop_error_descriptions() {
    for (error, name, _) in all_event_loop_errors() {
        assert_eq!(error.description(), name);
    }
}

#[test]
fn event_loop_error_debug_messages() {
    for (error, name, holds) in all_event_loop_errors() {
        assert_eq!(error.debug_message_with("detail"), if holds { format!("{}: detail", name) } else { String::from(name) });
        if !holds {
            assert_eq!(error.debug_message(), name);
        }
    }
    let inner = IoError::new(ErrorKind::Other, "poll");
    let expected = format!("PollPooling: {:?}", inner);
    assert_eq!(EventLoopError::PollPooling { error: inner }.debug_message(), expected);
    let inner = curl::MultiError::new(1);
    let expected = format!("CurlMultiAdd: {:?}", inner);
    assert_eq!(EventLoopError::CurlMultiAdd { error: inner }.debug_message(), expected);
    let inner = curl::Error::new(2);
    let expected = format!("CurlSetToken: {:?}", inner);
    assert_eq!(EventLoopError::CurlSetToken { error: inner }.debug_message(), expected);
}

#[test]
fn event_loop_error_causes() {
    for (error, _, holds) in all_event_loop_errors() {
        assert_eq!(error.cause().is_some(), holds);
    }
    assert!(matches!(EventLoopError::CurlMultiAction { error: curl::MultiError::new(1) }.cause(), Some(Cause::Multi(_))));
    assert!(matches!(EventLoopError::CurlSetToken { error: curl::Error::new(2) }.cause(), Some(Cause::Curl(_))));
    assert!(matches!(EventLoopError::PollInit { error: IoError::new(ErrorKind::Other, "p") }.cause(), Some(Cause::Io(_))));
}

#[test]
fn curl_debug_text_has_its_shape() {
    let text = TaskError::<()>::Curl { error: curl::Error::new(7) }.debug_message();
    assert!(text.starts_with("Curl error: Error { description: \""));
    assert!(text.ends_with(" }"));
    let text = EventLoopError::CurlMultiAdd { error: curl::MultiError::new(1) }.debug_message();
    assert!(text.starts_with("CurlMultiAdd: MultiError { description: \""));
    assert!(text.ends_with(" }"));
}
