use network_communicator::event_loop::{
    classify_token, transfer_outcome, EventLoop, EventLoopConfig, EventLoopError, EventSource,
    Interest, Registration, SocketAction, SocketActivity, SocketCommand, SocketWants,
    COMMUNICATOR_TOKEN, CURL_TOKEN,
};
use network_communicator::task::termination_task;
use network_communicator::{Task, TaskError};
use std::time::Duration;

fn fresh() -> EventLoop<&'static str> {
    EventLoop::new(EventLoopConfig::new(128))
}

#[test]
fn new_event_loop_state() {
    let mut event_loop = fresh();
    assert_eq!(event_loop.get_events_capacity(), 128);
    assert_eq!(event_loop.get_active_requests(), 0);
    assert!(event_loop.is_running());
    assert_eq!(event_loop.get_timeout(), None);
    assert_eq!(event_loop.next_handle_token(), 1);
    assert_eq!(event_loop.handle_executing_requests(), None);
    let activity = SocketActivity { readable: true, writable: false, error: false };
    assert_eq!(event_loop.socket_action(2, activity), None);
}

#[test]
fn tokens_are_classified() {
    assert_eq!(classify_token(CURL_TOKEN), EventSource::CurlMessages);
    assert_eq!(classify_token(COMMUNICATOR_TOKEN), EventSource::NewTasks);
    assert_eq!(classify_token(1), EventSource::CurlMessages);
    assert_eq!(classify_token(0), EventSource::NewTasks);
    assert_eq!(classify_token(2), EventSource::Socket(2));
    assert_eq!(classify_token(usize::MAX), EventSource::Socket(usize::MAX));
}

#[test]
fn timeout_is_recorded() {
    let mut event_loop = fresh();
    event_loop.process_change_timeout(Some(Duration::from_millis(250)));
    assert_eq!(event_loop.get_timeout(), Some(Duration::from_millis(250)));
    event_loop.process_change_timeout(None);
    assert_eq!(event_loop.get_timeout(), None);
}

#[test]
fn active_requests_follow_the_transfers() {
    let mut event_loop = fresh();
    event_loop.store_handle("first").unwrap();
    assert_eq!(event_loop.get_active_requests(), 1);
    assert_eq!(event_loop.handle_executing_requests(), Some(1));
    assert_eq!(event_loop.handle_executing_requests(), None);
    event_loop.store_handle("second").unwrap();
    assert_eq!(event_loop.get_active_requests(), 2);
    assert_eq!(event_loop.handle_executing_requests(), Some(2));
    assert!(event_loop.finish_transfer(Some(Ok(())), Ok(1)).unwrap().is_some());
    assert_eq!(event_loop.get_active_requests(), 1);
    assert_eq!(event_loop.handle_executing_requests(), Some(1));
    assert!(event_loop.finish_transfer(None, Ok(2)).unwrap().is_none());
    assert_eq!(event_loop.get_active_requests(), 1);
    assert!(event_loop.finish_transfer(Some(Ok(())), Ok(2)).unwrap().is_some());
    assert_eq!(event_loop.get_active_requests(), 0);
    assert_eq!(event_loop.handle_executing_requests(), Some(0));
    assert_eq!(event_loop.handle_executing_requests(), None);
}

#[test]
fn one_transfer_leaves_no_active_request() {
    let mut event_loop = fresh();
    event_loop.store_handle("only").unwrap();
    let _ = event_loop.handle_executing_requests();
    let done = event_loop.finish_transfer(Some(Ok(())), Ok(1)).unwrap();
    assert_eq!(done.map(|(handle, _)| handle), Some("only"));
    assert_eq!(event_loop.get_active_requests(), 0);
    assert_eq!(event_loop.handle_executing_requests(), Some(0));
}

#[test]
fn registration_builds_or_stops() {
    let mut event_loop = fresh();
    let task = Task::new(|| -> Result<u8, TaskError<()>> { Ok(1) });
    assert!(matches!(event_loop.register_task(task), Registration::Add(1)));
    assert!(event_loop.is_running());
    let failing =
        Task::new(|| -> Result<u8, TaskError<u8>> { Err(TaskError::Initialize { error: 4 }) });
    assert!(matches!(
        event_loop.register_task(failing),
        Registration::Reject(TaskError::Initialize { error: 4 })
    ));
    assert!(event_loop.is_running());
    let stop: Task<fn() -> Result<u8, TaskError<()>>> = termination_task();
    assert!(matches!(event_loop.register_task(stop), Registration::Stopped));
    assert!(!event_loop.is_running());
}

#[test]
fn stored_handle_comes_back_when_done() {
    let mut event_loop = fresh();
    assert_eq!(event_loop.next_handle_token(), 1);
    assert!(event_loop.store_handle("first").is_ok());
    assert_eq!(event_loop.next_handle_token(), 2);
    assert!(event_loop.store_handle("second").is_ok());
    assert_eq!(event_loop.next_handle_token(), 3);
    match event_loop.finish_transfer(Some(Ok(())), Ok(2)) {
        Ok(Some((handle, outcome))) => {
            assert_eq!(handle, "second");
            assert!(outcome.is_ok());
        }
        _ => panic!("expected the handle of token 2"),
    }
    match event_loop.finish_transfer(Some(Err(curl::Error::new(7))), Ok(1)) {
        Ok(Some((handle, outcome))) => {
            assert_eq!(handle, "first");
            assert_eq!(outcome.unwrap_err().code(), 7);
        }
        _ => panic!("expected the handle of token 1"),
    }
    assert!(matches!(
        event_loop.finish_transfer(Some(Ok(())), Ok(1)),
        Err(EventLoopError::UnableRemoveToken)
    ));
}

#[test]
fn unfinished_transfer_keeps_its_handle() {
    let mut event_loop = fresh();
    event_loop.store_handle("running").unwrap();
    assert!(matches!(event_loop.finish_transfer(None, Ok(1)), Ok(None)));
    assert!(matches!(
        event_loop.finish_transfer(Some(Ok(())), Ok(1)),
        Ok(Some(("running", Ok(()))))
    ));
}

#[test]
fn unreadable_token_is_an_error() {
    let mut event_loop = fresh();
    event_loop.store_handle("kept").unwrap();
    assert!(matches!(
        event_loop.finish_transfer(None, Err(curl::Error::new(43))),
        Err(EventLoopError::UnableRemoveToken)
    ));
    assert!(matches!(
        event_loop.finish_transfer(Some(Ok(())), Err(curl::Error::new(43))),
        Err(EventLoopError::UnableRemoveToken)
    ));
    assert_eq!(event_loop.get_active_requests(), 1);
    assert!(matches!(
        event_loop.finish_transfer(Some(Ok(())), Ok(1)),
        Ok(Some(("kept", Ok(()))))
    ));
}

#[test]
fn new_sockets_get_fresh_tokens() {
    let mut event_loop = fresh();
    let wants = SocketWants { input: true, output: false, remove: false };
    let command = event_loop.process_socket_function(wants, 0).unwrap();
    assert_eq!(
        command,
        SocketCommand::Assign { token: 2, interest: Interest { readable: true, writable: false } }
    );
    let activity = SocketActivity { readable: true, writable: false, error: true };
    assert_eq!(event_loop.socket_action(2, activity), None);
    assert_eq!(event_loop.record_socket(17), Some(2));
    assert_eq!(
        event_loop.socket_action(2, activity),
        Some(SocketAction { socket: 17, input: true, output: false, error: true })
    );
    assert_eq!(event_loop.record_socket(18), None);
    let wants = SocketWants { input: true, output: true, remove: false };
    let command = event_loop.process_socket_function(wants, 0).unwrap();
    assert_eq!(
        command,
        SocketCommand::Assign { token: 3, interest: Interest { readable: true, writable: true } }
    );
    assert_eq!(event_loop.record_socket(21), Some(3));
    let activity = SocketActivity { readable: false, writable: true, error: false };
    assert_eq!(
        event_loop.socket_action(3, activity),
        Some(SocketAction { socket: 21, input: false, output: true, error: false })
    );
}

#[test]
fn known_socket_is_polled_anew() {
    let mut event_loop = fresh();
    let wants = SocketWants { input: false, output: true, remove: false };
    let command = event_loop.process_socket_function(wants, 5).unwrap();
    assert_eq!(
        command,
        SocketCommand::Reregister { token: 5, interest: Interest { readable: false, writable: true } }
    );
    assert_eq!(event_loop.record_socket(3), None);
    let wants = SocketWants { input: false, output: false, remove: false };
    assert_eq!(
        event_loop.process_socket_function(wants, 0).unwrap(),
        SocketCommand::Assign { token: 2, interest: Interest { readable: false, writable: false } }
    );
}

#[test]
fn removed_socket_is_forgotten() {
    let mut event_loop = fresh();
    let wants = SocketWants { input: true, output: true, remove: false };
    event_loop.process_socket_function(wants, 0).unwrap();
    assert_eq!(event_loop.record_socket(9), Some(2));
    let remove = SocketWants { input: false, output: false, remove: true };
    assert_eq!(event_loop.process_socket_function(remove, 2).unwrap(), SocketCommand::Deregister);
    let activity = SocketActivity { readable: false, writable: true, error: false };
    assert_eq!(event_loop.socket_action(2, activity), None);
    assert!(matches!(
        event_loop.process_socket_function(remove, 2),
        Err(EventLoopError::UnableRemoveToken)
    ));
}

#[test]
fn finished_transfer_is_delivered() {
    let delivered: Result<&str, TaskError<()>> = transfer_outcome(Ok(()), "transfer");
    assert!(matches!(delivered, Ok("transfer")));
    let failed: Result<&str, TaskError<()>> =
        transfer_outcome(Err(curl::Error::new(6)), "transfer");
    match failed {
        Err(TaskError::Curl { error }) => assert_eq!(error.code(), 6),
        _ => panic!("expected a curl error"),
    }
}
