//! The decisions of the network manager: which worker gets the next task,
//! and how many requests run in all.
use vstd::prelude::*;
use crate::config::Config;
use crate::task::{is_terminate_task, Task};

verus! {

/// Where the collector sends a task.
#[derive(Debug, Clone, Copy, PartialEq, Eq)]
pub enum Route {
    /// To the worker with this index.
    Forward(usize),
    /// Nowhere: the dispatching has ended, and every worker gets one
    /// termination request (see `shutdown_targets`).
    Shutdown,
}

/// A task dispatcher as a mathematical value: how many workers there are,
/// which of them gets the next task, and whether the dispatching has ended.
pub struct DispatcherView {
    pub workers: nat,
    pub next: nat,
    pub finished: bool,
}

/// The dispatcher after it forwarded one task.
pub open spec fn forward_step(d: DispatcherView) -> DispatcherView {
    DispatcherView { next: (d.next + 1) % d.workers, ..d }
}

/// The dispatcher after it forwarded `k` tasks.
pub open spec fn after_forwards(d: DispatcherView, k: nat) -> DispatcherView
    decreases k,
{
    if k == 0 {
        d
    } else {
        forward_step(after_forwards(d, (k - 1) as nat))
    }
}

/// Where a task goes: nowhere once the dispatching has ended or for the
/// termination request, else to the next worker.
pub open spec fn route_of(d: DispatcherView, is_termination: bool) -> Route {
    if d.finished || is_termination {
        Route::Shutdown
    } else {
        Route::Forward(d.next as usize)
    }
}

/// The dispatcher after routing a task: the termination request ends the
/// dispatching for good; a forwarded task passes the turn on.
pub open spec fn after_route(d: DispatcherView, is_termination: bool) -> DispatcherView {
    if d.finished || is_termination {
        DispatcherView { finished: true, ..d }
    } else {
        forward_step(d)
    }
}

/// The workers that get a termination request when the dispatching ends:
/// each worker once, in order.
pub open spec fn shutdown_order(workers: nat) -> Seq<usize> {
    Seq::new(workers, |i: int| i as usize)
}

/// Hands the tasks that reach the network manager to its workers in turn.
pub struct TaskDispatcher {
    workers: usize,
    next: usize,
    finished: bool,
}

impl View for TaskDispatcher {
    type V = DispatcherView;

    closed spec fn view(&self) -> DispatcherView {
        DispatcherView {
            workers: self.workers as nat,
            next: self.next as nat,
            finished: self.finished,
        }
    }
}

impl TaskDispatcher {
    #[verifier::type_invariant]
    spec fn inv(self) -> bool {
        0 < self.workers && self.next < self.workers
    }

    /// A dispatcher for as many workers as the configuration asks threads;
    /// the first task goes to worker 0.
    pub fn new(config: &Config) -> (d: Self)
        ensures
            d@ == (DispatcherView {
                workers: config@.thread_count as nat,
                next: 0,
                finished: false,
            }),
    {
        TaskDispatcher { workers: config.get_thread_count(), next: 0, finished: false }
    }

    /// The number of workers.
    pub fn workers(&self) -> (r: usize)
        ensures
            r == self@.workers,
            r > 0,
    {
        proof {
            use_type_invariant(self);
        }
        self.workers
    }

    /// Decides where a task goes: the termination request ends the
    /// dispatching, after which no task is forwarded; any other task goes to
    /// the next worker, and the turn passes on.
    pub fn route<C>(&mut self, task: &Task<C>) -> (r: Route)
        ensures
            r == route_of(old(self)@, task.is_termination()),
            final(self)@ == after_route(old(self)@, task.is_termination()),
            r matches Route::Forward(i) ==> i < old(self)@.workers,
    {
        proof {
            use_type_invariant(&*self);
        }
        if self.finished || is_terminate_task(task) {
            self.finished = true;
            return Route::Shutdown;
        }
        let target = self.next;
        if self.next + 1 == self.workers {
            proof {
                vstd::arithmetic::div_mod::lemma_mod_self_0(self.workers as int);
            }
            self.next = 0;
        } else {
            proof {
                vstd::arithmetic::div_mod::lemma_small_mod(
                    (self.next + 1) as nat,
                    self.workers as nat,
                );
            }
            self.next = self.next + 1;
        }
        Route::Forward(target)
    }

    /// The workers to send a termination request to when the dispatching
    /// ends: every worker, once each, in order.
    pub fn shutdown_targets(&self) -> (r: Vec<usize>)
        ensures
            r@ == shutdown_order(self@.workers),
    {
        let mut targets: Vec<usize> = Vec::new();
        let mut i: usize = 0;
        while i < self.workers
            invariant
                i <= self.workers,
                targets@ == shutdown_order(i as nat),
            decreases self.workers - i,
        {
            targets.push(i);
            i = i + 1;
            assert(targets@ =~= shutdown_order(i as nat));
        }
        targets
    }
}

/// Tasks go to the workers in turn: after `k` forwarded tasks, the next one
/// goes to worker `k mod n`, for a dispatcher of `n` workers that starts at
/// worker 0.
pub proof fn law_round_robin(workers: nat, k: nat)
    requires
        workers > 0,
    ensures
        after_forwards(DispatcherView { workers, next: 0, finished: false }, k).next == k
            % workers,
        after_forwards(DispatcherView { workers, next: 0, finished: false }, k).workers
            == workers,
        !after_forwards(DispatcherView { workers, next: 0, finished: false }, k).finished,
    decreases k,
{
    if k > 0 {
        law_round_robin(workers, (k - 1) as nat);
        let prev = (k - 1) as int;
        vstd::arithmetic::div_mod::lemma_add_mod_noop_right(1, prev, workers as int);
        assert(1 + prev == k);
    }
}

/// Once the termination request arrived, no task is forwarded any more, and
/// each worker gets exactly one termination request.
pub proof fn law_shutdown_reaches_each_worker_once(d: DispatcherView, is_termination: bool)
    requires
        d.workers <= usize::MAX,
    ensures
        is_termination ==> route_of(d, is_termination) == Route::Shutdown,
        is_termination ==> after_route(d, is_termination).finished,
        after_route(d, true).finished ==> route_of(after_route(d, true), is_termination)
            == Route::Shutdown,
        shutdown_order(d.workers).len() == d.workers,
        forall|w: int|
            0 <= w < d.workers ==> #[trigger] shutdown_order(d.workers)[w] == w,
        forall|j: int, k: int|
            0 <= j < d.workers && 0 <= k < d.workers && j != k ==> #[trigger] shutdown_order(
                d.workers,
            )[j] != #[trigger] shutdown_order(d.workers)[k],
{
}

/// The sum of a sequence of counts.
pub open spec fn sum_counts(counts: Seq<usize>) -> int
    decreases counts.len(),
{
    if counts.len() == 0 {
        0
    } else {
        sum_counts(counts.drop_last()) + counts.last()
    }
}

proof fn lemma_sum_prefix_monotonic(counts: Seq<usize>, i: int, j: int)
    requires
        0 <= i <= j <= counts.len(),
    ensures
        sum_counts(counts.take(i)) <= sum_counts(counts.take(j)),
    decreases j - i,
{
    if i < j {
        lemma_sum_prefix_monotonic(counts, i, j - 1);
        assert(counts.take(j).drop_last() =~= counts.take(j - 1));
    }
}

/// Returns count of active requests: the sum of the counts of the workers,
/// none where that sum does not fit in a `usize`.
pub fn sum_active_requests(counts: &Vec<usize>) -> (r: Option<usize>)
    ensures
        r is Some <==> sum_counts(counts@) <= usize::MAX,
        r matches Some(total) ==> total == sum_counts(counts@),
{
    let mut result: usize = 0;
    let mut i: usize = 0;
    while i < counts.len()
        invariant
            0 <= i <= counts.len(),
            result == sum_counts(counts@.take(i as int)),
        decreases counts.len() - i,
    {
        assert(counts@.take(i + 1).drop_last() =~= counts@.take(i as int));
        match result.checked_add(counts[i]) {
            Some(total) => {
                result = total;
            },
            None => {
                proof {
                    lemma_sum_prefix_monotonic(counts@, i + 1, counts@.len() as int);
                    assert(counts@.take(counts@.len() as int) =~= counts@);
                }
                return None;
            },
        }
        i = i + 1;
    }
    assert(counts@.take(counts@.len() as int) =~= counts@);
    Some(result)
}

/// Routing an ordinary task with a dispatcher that has not finished sends it
/// to the worker whose turn it is, and passes the turn to the next worker,
/// back to worker 0 after the last; the number of workers stays, and the
/// dispatching goes on.
pub proof fn law_route_passes_turn(d: DispatcherView)
    requires
        !d.finished,
        d.workers > 0,
        d.next < d.workers,
    ensures
        route_of(d, false) == Route::Forward(d.next as usize),
        d.next + 1 < d.workers ==> after_route(d, false).next == d.next + 1,
        d.next + 1 == d.workers ==> after_route(d, false).next == 0,
        after_route(d, false).workers == d.workers,
        !after_route(d, false).finished,
{
    if d.next + 1 < d.workers {
        vstd::arithmetic::div_mod::lemma_small_mod((d.next + 1) as nat, d.workers);
    } else {
        vstd::arithmetic::div_mod::lemma_mod_self_0(d.workers as int);
    }
}

/// The dispatcher after `k` ordinary tasks were routed.
pub open spec fn after_routes(d: DispatcherView, k: nat) -> DispatcherView
    decreases k,
{
    if k == 0 {
        d
    } else {
        after_route(after_routes(d, (k - 1) as nat), false)
    }
}

/// From a new dispatcher of `n` workers, the ordinary task routed after `k`
/// others goes to worker `k mod n`: every worker gets one task in each run
/// of `n`.
pub proof fn law_routes_in_turn(workers: nat, k: nat)
    requires
        workers > 0,
    ensures
        ({
            let d = after_routes(DispatcherView { workers, next: 0, finished: false }, k);
            &&& d.workers == workers
            &&& !d.finished
            &&& d.next == k % workers
            &&& route_of(d, false) == Route::Forward((k % workers) as usize)
        }),
    decreases k,
{
    if k > 0 {
        law_routes_in_turn(workers, (k - 1) as nat);
        let prev = after_routes(DispatcherView { workers, next: 0, finished: false }, (k - 1) as nat);
        vstd::arithmetic::div_mod::lemma_mod_bound((k - 1) as int, workers as int);
        law_route_passes_turn(prev);
        vstd::arithmetic::div_mod::lemma_add_mod_noop_right(1, (k - 1) as int, workers as int);
        assert(1 + (k - 1) == k);
        if prev.next + 1 == workers {
            vstd::arithmetic::div_mod::lemma_mod_self_0(workers as int);
        } else {
            vstd::arithmetic::div_mod::lemma_small_mod((prev.next + 1) as nat, workers);
        }
    }
}

/// The total of the counts is their plain sum: nothing for no worker, and
/// each further worker adds its count.
pub proof fn law_sum_counts(counts: Seq<usize>, count: usize)
    ensures
        sum_counts(Seq::<usize>::empty()) == 0,
        sum_counts(counts.push(count)) == sum_counts(counts) + count,
        sum_counts(seq![count]) == count,
        sum_counts(counts) >= 0,
    decreases counts.len(),
{
    assert(counts.push(count).drop_last() =~= counts);
    assert(seq![count].drop_last() =~= Seq::<usize>::empty());
    if counts.len() > 0 {
        law_sum_counts(counts.drop_last(), counts.last());
    }
}

} // verus!
