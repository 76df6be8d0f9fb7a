use network_communicator::config::{get_event_loop_config, EVENTS_CAPACITY};
use network_communicator::event_loop::EventLoopConfig;
use network_communicator::{Config, ConfigError};

#[test]
fn config_new_keeps_thread_count_and_zero_limits() {
    let config = Config::new(2).expect("Unable to init config");
    assert_eq!(config.get_thread_count(), 2);
    assert_eq!(config.get_limit_result_channel(), 0);
    assert_eq!(config.get_limit_task_channel(), 0);
}

#[test]
fn config_new_refuses_zero_threads() {
    let config = Config::new(0);
    assert!(matches!(config, Err(ConfigError::InvalidThreadCount)));
}

#[test]
fn config_error_description() {
    assert_eq!(
        ConfigError::InvalidThreadCount.description(),
        "Field thread_count shall be positive"
    );
}

#[test]
fn config_setters_read_back() {
    let mut config = Config::new(1).expect("Unable to create config");
    config.set_limit_task_channel(10000).unwrap();
    config.set_limit_result_channel(10000).unwrap();
    assert_eq!(config.get_limit_task_channel(), 10000);
    assert_eq!(config.get_limit_result_channel(), 10000);
    assert_eq!(config.get_thread_count(), 1);
}

#[test]
fn config_setters_change_one_limit_each() {
    let mut config = Config::new(3).unwrap();
    config.set_limit_result_channel(7).unwrap();
    assert_eq!(config.get_limit_result_channel(), 7);
    assert_eq!(config.get_limit_task_channel(), 0);
    config.set_limit_task_channel(9).unwrap().set_limit_result_channel(11).unwrap();
    assert_eq!(config.get_limit_result_channel(), 11);
    assert_eq!(config.get_limit_task_channel(), 9);
    assert_eq!(config.get_thread_count(), 3);
}

#[test]
fn event_loop_config_capacity() {
    let config = EventLoopConfig::new(128);
    assert_eq!(config.get_events_capacity(), 128);
    let copy = config.clone();
    assert_eq!(copy.get_events_capacity(), 128);
}

#[test]
fn worker_event_loop_config() {
    let config = Config::new(4).unwrap();
    assert_eq!(get_event_loop_config(&config).get_events_capacity(), EVENTS_CAPACITY);
    assert_eq!(EVENTS_CAPACITY, 128);
}

#[test]
fn every_config_passes_its_check() {
    let mut config = Config::new(2).unwrap();
    assert_eq!(config.check_configuration(), Ok(()));
    config.set_limit_result_channel(5).unwrap();
    config.set_limit_task_channel(6).unwrap();
    let copy = config.clone();
    assert_eq!(copy.check_configuration(), Ok(()));
    assert!(copy.get_thread_count() > 0);
}
