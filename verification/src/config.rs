use vstd::prelude::*;
use crate::event_loop::EventLoopConfig;

verus! {

/// Structure for configuration.
#[derive(Debug, Clone, Copy)]
pub struct Config {
    thread_count: usize,
    limit_result_channel_buffer: usize,
    limit_task_channel_buffer: usize,
}

/// Errors in configuration.
#[derive(Debug, Clone, Copy, PartialEq, Eq)]
pub enum ConfigError {
    /// Threads count must be greater than zero.
    InvalidThreadCount,
}

impl ConfigError {
    /// What went wrong, in words.
    pub fn description(&self) -> (r: &'static str)
        ensures
            r@ == "Field thread_count shall be positive"@,
    {
        match self {
            ConfigError::InvalidThreadCount => "Field thread_count shall be positive",
        }
    }
}

/// A configuration as a mathematical value.
pub struct ConfigView {
    pub thread_count: usize,
    pub limit_result_channel: usize,
    pub limit_task_channel: usize,
}

/// A configuration with the limit of the result channel set to `value`.
pub open spec fn with_result_limit(config: ConfigView, value: usize) -> ConfigView {
    ConfigView { limit_result_channel: value, ..config }
}

/// A configuration with the limit of the task channel set to `value`.
pub open spec fn with_task_limit(config: ConfigView, value: usize) -> ConfigView {
    ConfigView { limit_task_channel: value, ..config }
}

/// Whether a configuration can be used: it asks for at least one thread.
pub open spec fn valid_configuration(config: ConfigView) -> bool {
    config.thread_count > 0
}

impl View for Config {
    type V = ConfigView;

    closed spec fn view(&self) -> ConfigView {
        ConfigView {
            thread_count: self.thread_count,
            limit_result_channel: self.limit_result_channel_buffer,
            limit_task_channel: self.limit_task_channel_buffer,
        }
    }
}

impl Config {
    #[verifier::type_invariant]
    spec fn inv(self) -> bool {
        valid_configuration(self@)
    }

    /// Creates new configuration structure.
    /// First parameter - number of threads, which must be positive; both
    /// channel limits start at 0.
    pub fn new(thread_count: usize) -> (r: Result<Config, ConfigError>)
        ensures
            thread_count > 0 <==> r is Ok,
            r matches Ok(config) ==> config@ == (ConfigView {
                thread_count,
                limit_result_channel: 0,
                limit_task_channel: 0,
            }),
            r matches Err(e) ==> e == ConfigError::InvalidThreadCount,
    {
        if thread_count == 0 {
            return Err(ConfigError::InvalidThreadCount);
        }
        let result = Config {
            thread_count: thread_count,
            limit_result_channel_buffer: 0,
            limit_task_channel_buffer: 0,
        };
        Ok(result)
    }

    /// Checks the configuration: it must ask for at least one thread. Every
    /// configuration passes, whatever setters were called on it.
    pub fn check_configuration(&self) -> (r: Result<(), ConfigError>)
        ensures
            r is Ok <==> valid_configuration(self@),
            r matches Err(e) ==> e == ConfigError::InvalidThreadCount,
            valid_configuration(self@),
            r == Ok::<(), ConfigError>(()),
    {
        proof {
            use_type_invariant(self);
        }
        if self.thread_count == 0 {
            return Err(ConfigError::InvalidThreadCount);
        }
        Ok(())
    }

    /// Returns number of used threads.
    pub fn get_thread_count(&self) -> (r: usize)
        ensures
            r == self@.thread_count,
            r > 0,
    {
        proof {
            use_type_invariant(self);
        }
        self.thread_count
    }

    /// Set limit for sync channel of result values.
    pub fn set_limit_result_channel(&mut self, value: usize) -> (r: Result<&mut Self, ConfigError>)
        ensures
            r matches Ok(c) && c@ == with_result_limit(old(self)@, value) && *final(self) == *final(c),
    {
        proof {
            use_type_invariant(&*self);
        }
        self.limit_result_channel_buffer = value;
        self.check_configuration()?;
        Ok(self)
    }

    /// Returns limit for sync channel of result values.
    pub fn get_limit_result_channel(&self) -> (r: usize)
        ensures
            r == self@.limit_result_channel,
    {
        self.limit_result_channel_buffer
    }

    /// Set limit for sync channel of tasks.
    pub fn set_limit_task_channel(&mut self, value: usize) -> (r: Result<&mut Self, ConfigError>)
        ensures
            r matches Ok(c) && c@ == with_task_limit(old(self)@, value) && *final(self) == *final(c),
    {
        proof {
            use_type_invariant(&*self);
        }
        self.limit_task_channel_buffer = value;
        self.check_configuration()?;
        Ok(self)
    }

    /// Returns limit for sync channel of tasks.
    pub fn get_limit_task_channel(&self) -> (r: usize)
        ensures
            r == self@.limit_task_channel,
    {
        self.limit_task_channel_buffer
    }
}

/// The capacity of the buffer of poll events of each worker's event loop.
pub const EVENTS_CAPACITY: usize = 128;

/// The event loop configuration of each worker of a network manager.
pub fn get_event_loop_config(_config: &Config) -> (r: EventLoopConfig)
    ensures
        r@ == EVENTS_CAPACITY,
{
    EventLoopConfig::new(EVENTS_CAPACITY)
}

/// What a setter writes, the matching getter reads back, and the other
/// settings stay as they were; no setter changes the number of threads, so
/// the configuration stays valid. Setting a limit twice keeps the last value,
/// and the two limits can be set in either order.
pub proof fn law_limits_read_back(config: ConfigView, value: usize, other: usize)
    ensures
        with_result_limit(config, value).limit_result_channel == value,
        with_result_limit(config, value).limit_task_channel == config.limit_task_channel,
        with_result_limit(config, value).thread_count == config.thread_count,
        with_task_limit(config, value).limit_task_channel == value,
        with_task_limit(config, value).limit_result_channel == config.limit_result_channel,
        with_task_limit(config, value).thread_count == config.thread_count,
        valid_configuration(config) ==> valid_configuration(with_result_limit(config, value)),
        valid_configuration(config) ==> valid_configuration(with_task_limit(config, value)),
        with_result_limit(with_result_limit(config, other), value) == with_result_limit(
            config,
            value,
        ),
        with_task_limit(with_task_limit(config, other), value) == with_task_limit(config, value),
        with_task_limit(with_result_limit(config, value), other) == with_result_limit(
            with_task_limit(config, other),
            value,
        ),
{
}

/// A configuration is valid exactly when it asks for at least one thread,
/// whatever its channel limits.
pub proof fn law_valid_configuration(config: ConfigView)
    ensures
        valid_configuration(config) <==> config.thread_count > 0,
        valid_configuration(config) ==> config.thread_count >= 1,
{
}

} // verus!
