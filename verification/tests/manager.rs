use network_communicator::manager::{sum_active_requests, Route, TaskDispatcher};
use network_communicator::task::termination_task;
use network_communicator::{Config, Task};

#[test]
fn dispatcher_hands_tasks_out_in_turn() {
    let config = Config::new(3).unwrap();
    let mut dispatcher = TaskDispatcher::new(&config);
    assert_eq!(dispatcher.workers(), 3);
    let task = Task::new(|| 0u8);
    let mut targets = Vec::new();
    for _ in 0..7 {
        targets.push(dispatcher.route(&task));
    }
    assert_eq!(
        targets,
        vec![
            Route::Forward(0),
            Route::Forward(1),
            Route::Forward(2),
            Route::Forward(0),
            Route::Forward(1),
            Route::Forward(2),
            Route::Forward(0)
        ]
    );
}

#[test]
fn dispatcher_stops_at_termination() {
    let config = Config::new(2).unwrap();
    let mut dispatcher = TaskDispatcher::new(&config);
    let task = Task::new(|| 0u8);
    let stop: Task<fn() -> u8> = termination_task();
    assert_eq!(dispatcher.route(&task), Route::Forward(0));
    assert_eq!(dispatcher.route(&stop), Route::Shutdown);
    let task = Task::new(|| 1u8);
    assert_eq!(dispatcher.route(&task), Route::Shutdown);
    assert_eq!(dispatcher.route(&task), Route::Shutdown);
}

#[test]
fn every_worker_gets_one_termination_request() {
    let config = Config::new(4).unwrap();
    let mut dispatcher = TaskDispatcher::new(&config);
    let stop: Task<fn() -> u8> = termination_task();
    assert_eq!(dispatcher.route(&stop), Route::Shutdown);
    assert_eq!(dispatcher.shutdown_targets(), vec![0, 1, 2, 3]);
    let config = Config::new(1).unwrap();
    let dispatcher = TaskDispatcher::new(&config);
    assert_eq!(dispatcher.shutdown_targets(), vec![0]);
}

#[test]
fn single_worker_gets_every_task() {
    let config = Config::new(1).unwrap();
    let mut dispatcher = TaskDispatcher::new(&config);
    let task = Task::new(|| 0u8);
    for _ in 0..4 {
        assert_eq!(dispatcher.route(&task), Route::Forward(0));
    }
}

#[test]
fn active_requests_add_up() {
    assert_eq!(sum_active_requests(&vec![]), Some(0));
    assert_eq!(sum_active_requests(&vec![3, 0, 4]), Some(7));
    assert_eq!(sum_active_requests(&vec![usize::MAX, 0]), Some(usize::MAX));
}

#[test]
fn active_requests_overflow_is_none() {
    assert_eq!(sum_active_requests(&vec![usize::MAX, 1]), None);
    assert_eq!(sum_active_requests(&vec![usize::MAX, 1, 0]), None);
}
