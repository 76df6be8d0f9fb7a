use vstd::prelude::*;

verus! {

enum InnerTask<C> {
    Task { configurator: C },
    Terminate,
}

/// Task for network manager.
///
/// A task either carries a configurator, a closure that builds the request
/// to perform, or it is the termination request that stops a worker. The
/// configurator's type `C` is a parameter: tasks of different closures share
/// one type when the closures are boxed (`Box<dyn Fn() -> R + Send>`).
pub struct Task<C> {
    inner: InnerTask<C>,
}

impl<C> Task<C> {
    /// True for the termination request.
    pub closed spec fn is_termination(&self) -> bool {
        self.inner is Terminate
    }

    /// The configurator of a task that is not the termination request.
    pub closed spec fn configurator(&self) -> C
        recommends
            !self.is_termination(),
    {
        self.inner->configurator
    }

    /// Creates new task with payload.
    pub fn new(configurator: C) -> (task: Task<C>)
        ensures
            !task.is_termination(),
            task.configurator() == configurator,
    {
        Task { inner: InnerTask::Task { configurator } }
    }

    /// Runs the configurator and hands back what it built.
    /// The termination request has nothing to build.
    pub fn build<R>(self) -> (built: R) where C: Fn() -> R
        requires
            !self.is_termination(),
            call_requires(self.configurator(), ()),
        ensures
            call_ensures(self.configurator(), (), built),
    {
        match self.inner {
            InnerTask::Task { configurator } => configurator(),
            InnerTask::Terminate => vstd::pervasive::unreached(),
        }
    }
}

/// Tells the termination request from an ordinary task.
pub fn is_terminate_task<C>(task: &Task<C>) -> (r: bool)
    ensures
        r == task.is_termination(),
{
    match task.inner {
        InnerTask::Terminate => true,
        InnerTask::Task { .. } => false,
    }
}

/// Creates the termination request.
pub fn termination_task<C>() -> (task: Task<C>)
    ensures
        task.is_termination(),
{
    Task { inner: InnerTask::Terminate }
}

} // verus!
