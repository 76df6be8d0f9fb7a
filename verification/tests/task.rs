use network_communicator::task::{is_terminate_task, termination_task};
use network_communicator::Task;

#[test]
fn new_task_is_not_termination() {
    let task = Task::new(|| 5u32);
    assert!(!is_terminate_task(&task));
}

#[test]
fn termination_task_is_termination() {
    let task: Task<fn() -> u32> = termination_task();
    assert!(is_terminate_task(&task));
}

#[test]
fn build_runs_the_configurator() {
    let task = Task::new(|| -> Result<Vec<u8>, ()> { Ok(vec![1, 2, 3]) });
    assert_eq!(task.build(), Ok(vec![1, 2, 3]));
}

#[test]
fn build_hands_back_configurator_error() {
    let task = Task::new(|| -> Result<u8, String> { Err(String::from("bad url")) });
    assert_eq!(task.build(), Err(String::from("bad url")));
}
