//! The decisions of an event loop: which tokens stand for what, which socket
//! belongs to which token, which transfer handle is under which token, and
//! when the loop stops. The loop itself, with its poll and its curl multi
//! handle, runs around this state and hands it what those calls return.
pub mod config;
pub mod error;

pub use self::config::Config as EventLoopConfig;
pub use self::error::EventLoopError;

use std::collections::HashMap;
use std::time::Duration;
use vstd::prelude::*;
use crate::error::TaskError;
use crate::task::{is_terminate_task, Task};

verus! {

broadcast use vstd::std_specs::hash::group_hash_axioms;

/// The poll token of the channel that brings curl's socket and timer messages.
pub const CURL_TOKEN: usize = 1;

/// The poll token of the channel that brings new tasks.
pub const COMMUNICATOR_TOKEN: usize = 0;

/// The first token that a socket gets.
pub const FIRST_SOCKET_TOKEN: usize = 2;

/// The first token that a transfer handle gets.
pub const FIRST_HANDLE_TOKEN: usize = 1;

/// A socket as curl hands it out.
pub type Socket = i32;

/// `x + 1`, wrapping round to 0 after `usize::MAX`.
pub open spec fn next_token(x: usize) -> usize {
    if x == usize::MAX {
        0
    } else {
        (x + 1) as usize
    }
}

/// What a ready poll token stands for.
#[derive(Debug, Clone, Copy, PartialEq, Eq)]
pub enum EventSource {
    /// Messages of curl about sockets and timeouts are waiting.
    CurlMessages,
    /// New tasks are waiting.
    NewTasks,
    /// The socket registered under this token is ready.
    Socket(usize),
}

/// Tells what a ready poll token stands for.
pub fn classify_token(token: usize) -> (source: EventSource)
    ensures
        token == CURL_TOKEN ==> source == EventSource::CurlMessages,
        token == COMMUNICATOR_TOKEN ==> source == EventSource::NewTasks,
        token != CURL_TOKEN && token != COMMUNICATOR_TOKEN ==> source == EventSource::Socket(token),
{
    if token == CURL_TOKEN {
        EventSource::CurlMessages
    } else if token == COMMUNICATOR_TOKEN {
        EventSource::NewTasks
    } else {
        EventSource::Socket(token)
    }
}

/// What curl asks of a socket, as its socket callback reports it.
#[derive(Debug, Clone, Copy, PartialEq, Eq)]
pub struct SocketWants {
    /// Wait until the socket can be read.
    pub input: bool,
    /// Wait until the socket can be written.
    pub output: bool,
    /// Stop waiting on the socket.
    pub remove: bool,
}

/// The readiness to poll a socket for.
#[derive(Debug, Clone, Copy, PartialEq, Eq)]
pub struct Interest {
    pub readable: bool,
    pub writable: bool,
}

/// What the poll reported of a ready socket.
#[derive(Debug, Clone, Copy, PartialEq, Eq)]
pub struct SocketActivity {
    pub readable: bool,
    pub writable: bool,
    pub error: bool,
}

/// The call of curl's socket action that a ready socket asks for: the
/// socket, and the events to report on it.
#[derive(Debug, Clone, Copy, PartialEq, Eq)]
pub struct SocketAction {
    pub socket: Socket,
    pub input: bool,
    pub output: bool,
    pub error: bool,
}

/// What becomes of a task taken from the task channel.
pub enum Registration<X, E> {
    /// It was the termination request: the loop stops.
    Stopped,
    /// Its configurator built this transfer, to be added to curl.
    Add(X),
    /// Its configurator failed with this error, to be delivered as the
    /// task's result.
    Reject(TaskError<E>),
}

/// What the loop has to do with a socket that curl reported on.
#[derive(Debug, Clone, Copy, PartialEq, Eq)]
pub enum SocketCommand {
    /// Stop polling the socket; its token is forgotten.
    Deregister,
    /// The socket is new: assign it this token in curl, record it (the
    /// token is then the one awaiting its socket), and register it with the
    /// poll.
    Assign { token: usize, interest: Interest },
    /// The socket is known under this token: change what it is polled for.
    Reregister { token: usize, interest: Interest },
}

/// The state of an event loop, as a mathematical value.
pub struct EventLoopView<H> {
    pub events_capacity: usize,
    pub next_socket_token: usize,
    /// The token handed out to a new socket that is not recorded yet.
    pub assigned_socket: Option<usize>,
    pub timeout: Option<Duration>,
    pub sockets: Map<usize, Socket>,
    pub handles: Map<usize, H>,
    pub next_handle_token: usize,
    /// The count of active requests last handed to the count handler.
    pub reported_requests: u32,
    pub running: bool,
}

/// Event loop state: sockets and transfer handles by token, the next tokens
/// to hand out, the timeout curl asked for, the count of active requests
/// last reported, and whether the loop goes on. `H` is the type of a
/// transfer handle.
pub struct EventLoop<H> {
    config: EventLoopConfig,
    next_socket_token: usize,
    assigned_socket: Option<usize>,
    cur_timeout: Option<Duration>,
    socket_map: HashMap<usize, Socket>,
    handle_map: HashMap<usize, H>,
    next_handle_token: usize,
    reported_requests: u32,
    running: bool,
}

impl<H> View for EventLoop<H> {
    type V = EventLoopView<H>;

    closed spec fn view(&self) -> EventLoopView<H> {
        EventLoopView {
            events_capacity: self.config@,
            next_socket_token: self.next_socket_token,
            assigned_socket: self.assigned_socket,
            timeout: self.cur_timeout,
            sockets: self.socket_map@,
            handles: self.handle_map@,
            next_handle_token: self.next_handle_token,
            reported_requests: self.reported_requests,
            running: self.running,
        }
    }
}

/// The state of a new event loop.
pub open spec fn initial_state<H>(events_capacity: usize) -> EventLoopView<H> {
    EventLoopView {
        events_capacity,
        next_socket_token: FIRST_SOCKET_TOKEN,
        assigned_socket: None,
        timeout: None,
        sockets: Map::empty(),
        handles: Map::empty(),
        next_handle_token: FIRST_HANDLE_TOKEN,
        reported_requests: 0,
        running: true,
    }
}

/// The count of active requests for `n` transfers in flight, as a `u32`
/// (`u32::MAX` for more).
pub open spec fn active_count(n: nat) -> u32 {
    if n > u32::MAX {
        u32::MAX
    } else {
        n as u32
    }
}

/// The count of active requests: the transfers handed to curl whose result
/// was not taken back yet.
pub open spec fn active_requests<H>(v: EventLoopView<H>) -> u32 {
    active_count(v.handles.len())
}

/// The count to hand to the count handler: the count of active requests,
/// where it differs from the one last handed.
pub open spec fn report_outcome<H>(v: EventLoopView<H>) -> Option<u32> {
    if active_requests(v) != v.reported_requests {
        Some(active_requests(v))
    } else {
        None
    }
}

/// The state after the count of active requests was reported.
pub open spec fn after_report<H>(v: EventLoopView<H>) -> EventLoopView<H> {
    EventLoopView { reported_requests: active_requests(v), ..v }
}

/// The outcome of storing a handle: `UnableAddToken` where a handle was
/// stored under the next handle token already.
pub open spec fn store_outcome<H>(v: EventLoopView<H>) -> Result<(), EventLoopError> {
    if v.handles.contains_key(v.next_handle_token) {
        Err(EventLoopError::UnableAddToken)
    } else {
        Ok(())
    }
}

/// The state after storing a handle: the handle is under the next handle
/// token, which moves on by one unless a handle was under it already.
pub open spec fn after_store<H>(v: EventLoopView<H>, handle: H) -> EventLoopView<H> {
    let token = v.next_handle_token;
    EventLoopView {
        handles: v.handles.insert(token, handle),
        next_handle_token: if v.handles.contains_key(token) {
            token
        } else {
            next_token(token)
        },
        ..v
    }
}

/// What to do with a socket that curl reported on.
pub open spec fn socket_outcome<H>(v: EventLoopView<H>, wants: SocketWants, token: usize) -> Result<
    SocketCommand,
    EventLoopError,
> {
    let interest = Interest { readable: wants.input, writable: wants.output };
    if wants.remove {
        if v.sockets.contains_key(token) {
            Ok(SocketCommand::Deregister)
        } else {
            Err(EventLoopError::UnableRemoveToken)
        }
    } else if token == 0 {
        Ok(SocketCommand::Assign { token: v.next_socket_token, interest })
    } else {
        Ok(SocketCommand::Reregister { token, interest })
    }
}

/// The state after curl reported on a socket: a removed socket is forgotten,
/// a new one takes up the next socket token, which then awaits its socket.
pub open spec fn after_socket_function<H>(
    v: EventLoopView<H>,
    wants: SocketWants,
    token: usize,
) -> EventLoopView<H> {
    if wants.remove {
        if v.sockets.contains_key(token) {
            EventLoopView { sockets: v.sockets.remove(token), ..v }
        } else {
            v
        }
    } else if token == 0 {
        EventLoopView {
            next_socket_token: next_token(v.next_socket_token),
            assigned_socket: Some(v.next_socket_token),
            ..v
        }
    } else {
        v
    }
}

/// The state after a socket was recorded: it is under the token that
/// awaited it, and no token awaits any more.
pub open spec fn after_record<H>(v: EventLoopView<H>, socket: Socket) -> EventLoopView<H> {
    match v.assigned_socket {
        Some(token) => EventLoopView {
            sockets: v.sockets.insert(token, socket),
            assigned_socket: None,
            ..v
        },
        None => v,
    }
}

/// The call of curl's socket action for a ready socket: the socket recorded
/// under its token, with the events that the poll reported; none for a
/// token without a socket.
pub open spec fn action_for<H>(v: EventLoopView<H>, token: usize, activity: SocketActivity) -> Option<
    SocketAction,
> {
    if v.sockets.contains_key(token) {
        Some(
            SocketAction {
                socket: v.sockets[token],
                input: activity.readable,
                output: activity.writable,
                error: activity.error,
            },
        )
    } else {
        None
    }
}

/// What a message of curl about a transfer yields: nothing for a transfer
/// that is not done, its handle and result for one that is, and
/// `UnableRemoveToken` where the token cannot be read or no handle is under it.
pub open spec fn finish_outcome<H>(
    v: EventLoopView<H>,
    result: Option<Result<(), curl::Error>>,
    token: Result<usize, curl::Error>,
) -> Result<Option<(H, Result<(), curl::Error>)>, EventLoopError> {
    match token {
        Err(_) => Err(EventLoopError::UnableRemoveToken),
        Ok(t) => match result {
            None => Ok(None),
            Some(outcome) => if v.handles.contains_key(t) {
                Ok(Some((v.handles[t], outcome)))
            } else {
                Err(EventLoopError::UnableRemoveToken)
            },
        },
    }
}

/// The state after a message of curl about a transfer: the handle of a done
/// transfer is no longer held, so it no longer counts as active.
pub open spec fn after_finish<H>(
    v: EventLoopView<H>,
    result: Option<Result<(), curl::Error>>,
    token: Result<usize, curl::Error>,
) -> EventLoopView<H> {
    match (token, result) {
        (Ok(t), Some(_)) => if v.handles.contains_key(t) {
            EventLoopView { handles: v.handles.remove(t), ..v }
        } else {
            v
        },
        _ => v,
    }
}

impl<H> EventLoop<H> {
    /// Creates new event loop.
    pub fn new(config: EventLoopConfig) -> (r: Self)
        ensures
            r@ == initial_state::<H>(config@),
    {
        EventLoop {
            config: config,
            next_socket_token: FIRST_SOCKET_TOKEN,
            assigned_socket: None,
            cur_timeout: None,
            socket_map: HashMap::new(),
            handle_map: HashMap::new(),
            next_handle_token: FIRST_HANDLE_TOKEN,
            reported_requests: 0,
            running: true,
        }
    }

    /// The capacity of the buffer of poll events.
    pub fn get_events_capacity(&self) -> (r: usize)
        ensures
            r == self@.events_capacity,
    {
        self.config.get_events_capacity()
    }

    /// Returns count of active requests: the transfers handed to curl whose
    /// result was not taken back yet (`u32::MAX` for more).
    pub fn get_active_requests(&self) -> (r: u32)
        ensures
            r == active_requests(self@),
    {
        let n = self.handle_map.len();
        if n > 0xffff_ffffusize {
            0xffff_ffffu32
        } else {
            n as u32
        }
    }

    /// Whether the loop goes on.
    pub fn is_running(&self) -> (r: bool)
        ensures
            r == self@.running,
    {
        self.running
    }

    /// How long the next poll may wait, as curl last asked.
    pub fn get_timeout(&self) -> (r: Option<Duration>)
        ensures
            r == self@.timeout,
    {
        self.cur_timeout
    }

    /// Records the timeout that curl's timer callback asked for.
    pub fn process_change_timeout(&mut self, timeout: Option<Duration>)
        ensures
            final(self)@ == (EventLoopView { timeout: timeout, ..old(self)@ }),
    {
        self.cur_timeout = timeout;
    }

    /// Takes the count of active requests as reported: the count comes back
    /// where it differs from the count reported last, for the handler of the
    /// count to hear of it.
    pub fn handle_executing_requests(&mut self) -> (r: Option<u32>)
        ensures
            r == report_outcome(old(self)@),
            final(self)@ == after_report(old(self)@),
    {
        let executing_count = self.get_active_requests();
        if self.reported_requests != executing_count {
            self.reported_requests = executing_count;
            Some(executing_count)
        } else {
            None
        }
    }

    /// Takes a task from the task channel. The termination request stops
    /// the loop; any other task is built, and what its configurator built is
    /// handed back: a transfer to add to curl, or the error to deliver.
    pub fn register_task<X, E, C>(&mut self, task: Task<C>) -> (r: Registration<X, E>) where
        C: Fn() -> Result<X, TaskError<E>>,

        requires
            !task.is_termination() ==> call_requires(task.configurator(), ()),
        ensures
            task.is_termination() ==> r is Stopped && final(self)@ == (EventLoopView {
                running: false,
                ..old(self)@
            }),
            !task.is_termination() ==> r !is Stopped && final(self)@ == old(self)@,
            r matches Registration::Add(transfer) ==> call_ensures(
                task.configurator(),
                (),
                Ok::<X, TaskError<E>>(transfer),
            ),
            r matches Registration::Reject(error) ==> call_ensures(
                task.configurator(),
                (),
                Err::<X, TaskError<E>>(error),
            ),
    {
        if is_terminate_task(&task) {
            self.running = false;
            return Registration::Stopped;
        }
        match task.build() {
            Ok(transfer) => Registration::Add(transfer),
            Err(error) => Registration::Reject(error),
        }
    }

    /// The token that the next stored transfer handle gets.
    pub fn next_handle_token(&self) -> (r: usize)
        ensures
            r == self@.next_handle_token,
    {
        self.next_handle_token
    }

    /// Stores a transfer handle under the next handle token, which then
    /// moves on by one. Where a handle was stored under that token already,
    /// the new one takes its place, the token stays, and the error is
    /// `UnableAddToken`.
    pub fn store_handle(&mut self, handle: H) -> (r: Result<(), EventLoopError>)
        ensures
            r == store_outcome(old(self)@),
            final(self)@ == after_store(old(self)@, handle),
    {
        let token = self.next_handle_token;
        if self.handle_map.insert(token, handle).is_some() {
            return Err(EventLoopError::UnableAddToken);
        }
        self.next_handle_token = token.wrapping_add(1);
        Ok(())
    }

    /// Decides what to do with a socket that curl's socket callback reported,
    /// with what curl wants of it and the token it has (0 for a socket that
    /// has none yet). A socket to be removed is forgotten; one without a
    /// token gets the next socket token, which then awaits the socket; a
    /// known one is polled anew.
    pub fn process_socket_function(&mut self, wants: SocketWants, token: usize) -> (r: Result<
        SocketCommand,
        EventLoopError,
    >)
        ensures
            r == socket_outcome(old(self)@, wants, token),
            final(self)@ == after_socket_function(old(self)@, wants, token),
    {
        if wants.remove {
            if self.socket_map.remove(&token).is_none() {
                assert(self.socket_map@ =~= old(self).socket_map@);
                return Err(EventLoopError::UnableRemoveToken);
            }
            Ok(SocketCommand::Deregister)
        } else {
            let interest = Interest { readable: wants.input, writable: wants.output };
            if token == 0 {
                let token = self.next_socket_token;
                self.next_socket_token = self.next_socket_token.wrapping_add(1);
                self.assigned_socket = Some(token);
                Ok(SocketCommand::Assign { token, interest })
            } else {
                Ok(SocketCommand::Reregister { token, interest })
            }
        }
    }

    /// Records a socket that curl accepted under the token handed out to it,
    /// and gives that token back; none where no token awaits a socket.
    pub fn record_socket(&mut self, socket: Socket) -> (r: Option<usize>)
        ensures
            r == old(self)@.assigned_socket,
            final(self)@ == after_record(old(self)@, socket),
    {
        match self.assigned_socket {
            Some(token) => {
                self.socket_map.insert(token, socket);
                self.assigned_socket = None;
                Some(token)
            },
            None => None,
        }
    }

    /// The call of curl's socket action that a ready socket asks for: the
    /// socket recorded under its token, with the events the poll reported;
    /// none where no socket is recorded under the token.
    pub fn socket_action(&self, token: usize, activity: SocketActivity) -> (r: Option<SocketAction>)
        ensures
            r == action_for(self@, token, activity),
    {
        match self.socket_map.get(&token) {
            Some(socket) => Some(
                SocketAction {
                    socket: *socket,
                    input: activity.readable,
                    output: activity.writable,
                    error: activity.error,
                },
            ),
            None => None,
        }
    }

    /// Takes in one message of curl about a finished transfer: its result
    /// (none while it is not done) and the token of its handle. The handle of
    /// a done transfer leaves the state, and so no longer counts as an active
    /// request, and comes back with the result, to be removed from curl and
    /// delivered.
    pub fn finish_transfer(
        &mut self,
        result: Option<Result<(), curl::Error>>,
        token: Result<usize, curl::Error>,
    ) -> (r: Result<Option<(H, Result<(), curl::Error>)>, EventLoopError>)
        ensures
            r == finish_outcome(old(self)@, result, token),
            final(self)@ == after_finish(old(self)@, result, token),
    {
        let token = match token {
            Ok(token) => token,
            Err(_) => {
                return Err(EventLoopError::UnableRemoveToken);
            },
        };
        match result {
            None => Ok(None),
            Some(outcome) => match self.handle_map.remove(&token) {
                Some(handle) => Ok(Some((handle, outcome))),
                None => {
                    assert(self.handle_map@ =~= old(self).handle_map@);
                    Err(EventLoopError::UnableRemoveToken)
                },
            },
        }
    }
}

/// What a finished transfer delivers: the transfer itself where curl reports
/// success, else curl's error.
pub fn transfer_outcome<X, E>(outcome: Result<(), curl::Error>, transfer: X) -> (r: Result<
    X,
    TaskError<E>,
>)
    ensures
        match outcome {
            Ok(_) => r == Ok::<X, TaskError<E>>(transfer),
            Err(error) => r == Err::<X, TaskError<E>>(TaskError::Curl { error }),
        },
{
    match outcome {
        Ok(_) => Ok(transfer),
        Err(error) => Err(TaskError::Curl { error }),
    }
}

/// A transfer handle stored under a token is the one handed back when curl
/// reports the transfer of that token done, with the result curl reported,
/// and it is handed back once: a second report for the token is an error.
/// While it is held it counts as one more active request; once handed back,
/// the count and the handles held are those before the store, unless the
/// store displaced a handle under the same token.
pub proof fn law_stored_handle_comes_back<H>(v: EventLoopView<H>, handle: H, outcome: Result<(), curl::Error>)
    requires
        v.handles.dom().finite(),
    ensures
        ({
            let token = v.next_handle_token;
            let stored = after_store(v, handle);
            let finished = after_finish(stored, Some(outcome), Ok(token));
            &&& finish_outcome(stored, Some(outcome), Ok(token)) == Ok::<
                Option<(H, Result<(), curl::Error>)>,
                EventLoopError,
            >(Some((handle, outcome)))
            &&& finish_outcome(finished, Some(outcome), Ok(token)) == Err::<
                Option<(H, Result<(), curl::Error>)>,
                EventLoopError,
            >(EventLoopError::UnableRemoveToken)
            &&& finished.handles == v.handles.remove(token)
            &&& !v.handles.contains_key(token) ==> {
                &&& active_requests(stored) == active_count(v.handles.len() + 1)
                &&& finished.handles == v.handles
                &&& active_requests(finished) == active_requests(v)
            }
        }),
{
    let token = v.next_handle_token;
    assert(v.handles.insert(token, handle).remove(token) =~= v.handles.remove(token));
    if !v.handles.contains_key(token) {
        assert(v.handles.remove(token) =~= v.handles);
        assert(v.handles.insert(token, handle).len() == v.handles.len() + 1);
    }
}

/// With no transfer in flight the count of active requests is 0; a new
/// loop has none.
pub proof fn law_idle_loop_has_no_active_requests<H>(v: EventLoopView<H>, events_capacity: usize)
    requires
        v.handles == Map::<usize, H>::empty(),
    ensures
        active_requests(v) == 0,
        active_requests(initial_state::<H>(events_capacity)) == 0,
        report_outcome(initial_state::<H>(events_capacity)) is None,
{
}

/// The handler of the count of active requests hears of each count once:
/// right after a report there is nothing new to report.
pub proof fn law_count_reported_once<H>(v: EventLoopView<H>)
    ensures
        after_report(v).reported_requests == active_requests(v),
        report_outcome(after_report(v)) is None,
{
}

/// Socket tokens stand apart: every recorded socket and the token that
/// awaits one lie at or above the first socket token, so none is the token
/// of the task channel (0) or of curl's messages (1), and below the next
/// token to hand out, so a new socket never gets the token of a recorded
/// one. This holds of a new loop and stays so through every step, as long
/// as the socket tokens have not run through all of `usize`.
pub open spec fn socket_tokens_apart<H>(v: EventLoopView<H>) -> bool {
    &&& FIRST_SOCKET_TOKEN <= v.next_socket_token
    &&& forall|k: usize|
        #![trigger v.sockets.contains_key(k)]
        v.sockets.contains_key(k) ==> FIRST_SOCKET_TOKEN <= k < v.next_socket_token
    &&& v.assigned_socket matches Some(t) ==> {
        &&& FIRST_SOCKET_TOKEN <= t < v.next_socket_token
        &&& !v.sockets.contains_key(t)
    }
}

/// Socket tokens stand apart in a new loop, and every step keeps them so
/// while the next socket token is below `usize::MAX`.
pub proof fn law_socket_tokens_stay_apart<H>(
    v: EventLoopView<H>,
    events_capacity: usize,
    wants: SocketWants,
    token: usize,
    socket: Socket,
    handle: H,
    result: Option<Result<(), curl::Error>>,
    transfer_token: Result<usize, curl::Error>,
    timeout: Option<Duration>,
)
    requires
        socket_tokens_apart(v),
        v.next_socket_token < usize::MAX,
    ensures
        socket_tokens_apart(initial_state::<H>(events_capacity)),
        socket_tokens_apart(after_socket_function(v, wants, token)),
        socket_tokens_apart(after_record(v, socket)),
        socket_tokens_apart(after_store(v, handle)),
        socket_tokens_apart(after_finish(v, result, transfer_token)),
        socket_tokens_apart(after_report(v)),
        socket_tokens_apart(EventLoopView { timeout: timeout, ..v }),
        forall|k: usize|
            #![trigger v.sockets.contains_key(k)]
            v.sockets.contains_key(k) ==> k != COMMUNICATOR_TOKEN && k != CURL_TOKEN,
{
    let w = after_socket_function(v, wants, token);
    assert(socket_tokens_apart(w)) by {
        if wants.remove && v.sockets.contains_key(token) {
            assert forall|k: usize| #![trigger w.sockets.contains_key(k)]
                w.sockets.contains_key(k) implies FIRST_SOCKET_TOKEN <= k < w.next_socket_token by {
                assert(v.sockets.contains_key(k));
            }
        }
    }
    let r = after_record(v, socket);
    assert(socket_tokens_apart(r)) by {
        if let Some(t) = v.assigned_socket {
            assert forall|k: usize| #![trigger r.sockets.contains_key(k)]
                r.sockets.contains_key(k) implies FIRST_SOCKET_TOKEN <= k < r.next_socket_token by {
                if k != t {
                    assert(v.sockets.contains_key(k));
                }
            }
        }
    }
}

/// Only a termination request stops the loop: storing handles, socket
/// reports, recorded sockets, finished transfers, new timeouts and count
/// reports leave it as it was.
pub proof fn law_only_termination_stops<H>(
    v: EventLoopView<H>,
    handle: H,
    wants: SocketWants,
    token: usize,
    socket: Socket,
    result: Option<Result<(), curl::Error>>,
    transfer_token: Result<usize, curl::Error>,
    timeout: Option<Duration>,
)
    ensures
        after_store(v, handle).running == v.running,
        after_socket_function(v, wants, token).running == v.running,
        after_record(v, socket).running == v.running,
        after_finish(v, result, transfer_token).running == v.running,
        (EventLoopView { timeout: timeout, ..v }).running == v.running,
        after_report(v).running == v.running,
{
}

/// Storing a handle: it lands under the next handle token. Where no handle
/// was held under that token, the store succeeds and the token moves on by
/// exactly one (round to 0 after `usize::MAX`), whatever else is held; where
/// one was, the store fails with `UnableAddToken` and the token stays. The
/// handles under other tokens, the sockets and everything else stay as they
/// were.
pub proof fn law_store_handle<H>(v: EventLoopView<H>, handle: H)
    ensures
        ({
            let t = v.next_handle_token;
            let w = after_store(v, handle);
            &&& w.handles.contains_key(t)
            &&& w.handles[t] == handle
            &&& forall|k: usize| k != t ==> #[trigger] w.handles.contains_key(k)
                == v.handles.contains_key(k)
            &&& forall|k: usize|
                k != t && v.handles.contains_key(k) ==> #[trigger] w.handles[k] == v.handles[k]
            &&& !v.handles.contains_key(t) ==> {
                &&& store_outcome(v) == Ok::<(), EventLoopError>(())
                &&& t < usize::MAX ==> w.next_handle_token == t + 1
                &&& t == usize::MAX ==> w.next_handle_token == 0
            }
            &&& v.handles.contains_key(t) ==> {
                &&& store_outcome(v) == Err::<(), EventLoopError>(
                    EventLoopError::UnableAddToken,
                )
                &&& w.next_handle_token == t
            }
            &&& w.sockets == v.sockets
            &&& w.next_socket_token == v.next_socket_token
            &&& w.assigned_socket == v.assigned_socket
            &&& w.running == v.running
            &&& w.timeout == v.timeout
            &&& w.reported_requests == v.reported_requests
            &&& w.events_capacity == v.events_capacity
        }),
{
}

/// Handle tokens never collide while they have not wrapped: when every held
/// handle lies below the next handle token, a store puts the new handle under
/// a token no held handle has, and afterwards every held handle again lies
/// below the next token.
pub proof fn law_handle_tokens_fresh<H>(v: EventLoopView<H>, handle: H)
    requires
        forall|k: usize| #[trigger] v.handles.contains_key(k) ==> k < v.next_handle_token,
        v.next_handle_token < usize::MAX,
    ensures
        !v.handles.contains_key(v.next_handle_token),
        store_outcome(v) is Ok,
        after_store(v, handle).next_handle_token == v.next_handle_token + 1,
        forall|k: usize| #[trigger] after_store(v, handle).handles.contains_key(k) ==> k
            < after_store(v, handle).next_handle_token,
{
}

/// A report on a socket that is not to be removed asks for exactly the
/// readiness curl wants: readable when curl waits for input, writable when it
/// waits for output. A socket without a token (0) is assigned the next
/// socket token, which then awaits it, and the next token moves on by one;
/// a known socket keeps its token. The recorded sockets stay as they were.
pub proof fn law_socket_interest<H>(v: EventLoopView<H>, wants: SocketWants, token: usize)
    requires
        !wants.remove,
    ensures
        ({
            let r = socket_outcome(v, wants, token);
            let w = after_socket_function(v, wants, token);
            &&& token == 0 ==> {
                &&& r matches Ok(SocketCommand::Assign { token: t, interest }) && t
                    == v.next_socket_token && interest.readable == wants.input
                    && interest.writable == wants.output
                &&& w.assigned_socket == Some(v.next_socket_token)
                &&& v.next_socket_token < usize::MAX ==> w.next_socket_token
                    == v.next_socket_token + 1
                &&& v.next_socket_token == usize::MAX ==> w.next_socket_token == 0
            }
            &&& token != 0 ==> {
                &&& r matches Ok(SocketCommand::Reregister { token: t, interest }) && t == token
                    && interest.readable == wants.input && interest.writable == wants.output
                &&& w == v
            }
            &&& w.sockets == v.sockets
            &&& w.handles == v.handles
        }),
{
}

/// A report that a socket is to be removed forgets its token where it is
/// known, and is `UnableRemoveToken` where it is not; nothing else changes.
pub proof fn law_socket_removal<H>(v: EventLoopView<H>, wants: SocketWants, token: usize)
    requires
        wants.remove,
    ensures
        v.sockets.contains_key(token) ==> socket_outcome(v, wants, token) == Ok::<
            SocketCommand,
            EventLoopError,
        >(SocketCommand::Deregister),
        !v.sockets.contains_key(token) ==> socket_outcome(v, wants, token) == Err::<
            SocketCommand,
            EventLoopError,
        >(EventLoopError::UnableRemoveToken),
        !after_socket_function(v, wants, token).sockets.contains_key(token),
        forall|k: usize| k != token ==> #[trigger] after_socket_function(v, wants, token).sockets.contains_key(k)
            == v.sockets.contains_key(k),
        forall|k: usize|
            k != token && v.sockets.contains_key(k) ==> #[trigger] after_socket_function(
                v,
                wants,
                token,
            ).sockets[k] == v.sockets[k],
        after_socket_function(v, wants, token).next_socket_token == v.next_socket_token,
        after_socket_function(v, wants, token).assigned_socket == v.assigned_socket,
        after_socket_function(v, wants, token).handles == v.handles,
{
}

/// Recording a socket puts it under the token that awaited it, which then
/// no longer awaits; with no token awaiting, nothing changes.
pub proof fn law_record_socket<H>(v: EventLoopView<H>, socket: Socket)
    ensures
        v.assigned_socket matches Some(t) ==> {
            &&& after_record(v, socket).sockets.contains_key(t)
            &&& after_record(v, socket).sockets[t] == socket
            &&& after_record(v, socket).assigned_socket is None
            &&& forall|k: usize|
                k != t ==> #[trigger] after_record(v, socket).sockets.contains_key(k)
                    == v.sockets.contains_key(k)
        },
        v.assigned_socket is None ==> after_record(v, socket) == v,
        after_record(v, socket).next_socket_token == v.next_socket_token,
        after_record(v, socket).handles == v.handles,
{
}

/// A ready socket is reported to curl with each flag as the poll saw it,
/// each on its own: input when readable, output when writable, error when in
/// error; the socket is the one recorded under the token. No action is asked
/// for a token without a socket.
pub proof fn law_socket_action<H>(v: EventLoopView<H>, token: usize, activity: SocketActivity)
    ensures
        v.sockets.contains_key(token) ==> {
            &&& action_for(v, token, activity) is Some
            &&& action_for(v, token, activity)->0.socket == v.sockets[token]
            &&& action_for(v, token, activity)->0.input == activity.readable
            &&& action_for(v, token, activity)->0.output == activity.writable
            &&& action_for(v, token, activity)->0.error == activity.error
        },
        !v.sockets.contains_key(token) ==> action_for(v, token, activity) is None,
{
}

/// A message of curl on a transfer: a token that cannot be read is
/// `UnableRemoveToken`; a transfer not done yields nothing; a done transfer
/// yields the handle held under its token with the result curl reported, and
/// that handle is no longer held; a done transfer under a token without a
/// handle is `UnableRemoveToken`. Only a handed-back handle leaves the state.
pub proof fn law_finish_transfer<H>(
    v: EventLoopView<H>,
    result: Option<Result<(), curl::Error>>,
    token: Result<usize, curl::Error>,
)
    ensures
        token is Err ==> finish_outcome(v, result, token) == Err::<
            Option<(H, Result<(), curl::Error>)>,
            EventLoopError,
        >(EventLoopError::UnableRemoveToken) && after_finish(v, result, token) == v,
        token is Ok && result is None ==> finish_outcome(v, result, token) == Ok::<
            Option<(H, Result<(), curl::Error>)>,
            EventLoopError,
        >(None) && after_finish(v, result, token) == v,
        token matches Ok(t) && result is Some && !v.handles.contains_key(t) ==> finish_outcome(
            v,
            result,
            token,
        ) == Err::<Option<(H, Result<(), curl::Error>)>, EventLoopError>(
            EventLoopError::UnableRemoveToken,
        ) && after_finish(v, result, token) == v,
{
}

/// The count of active requests is the number of handles held, where that
/// fits in a `u32`; the count handler hears of it exactly when it differs from
/// the count it heard last.
pub proof fn law_active_requests<H>(v: EventLoopView<H>)
    ensures
        v.handles.len() <= u32::MAX ==> active_requests(v) == v.handles.len(),
        v.handles.len() > u32::MAX ==> active_requests(v) == u32::MAX,
        active_requests(v) != v.reported_requests ==> report_outcome(v) == Some(
            active_requests(v),
        ),
        active_requests(v) == v.reported_requests ==> report_outcome(v) is None,
        after_report(v).reported_requests == active_requests(v),
        after_report(v).handles == v.handles,
{
}

/// A done transfer under a token that holds a handle yields that handle with
/// the result curl reported, and the handle is no longer held; the other
/// handles, the next handle token and the sockets stay as they were.
pub proof fn law_finish_done_transfer<H>(v: EventLoopView<H>, t: usize, outcome: Result<(), curl::Error>)
    requires
        v.handles.contains_key(t),
    ensures
        finish_outcome(v, Some(outcome), Ok(t)) == Ok::<
            Option<(H, Result<(), curl::Error>)>,
            EventLoopError,
        >(Some((v.handles[t], outcome))),
        !after_finish(v, Some(outcome), Ok(t)).handles.contains_key(t),
        forall|k: usize|
            k != t ==> #[trigger] after_finish(v, Some(outcome), Ok(t)).handles.contains_key(k)
                == v.handles.contains_key(k),
        forall|k: usize|
            k != t && v.handles.contains_key(k) ==> #[trigger] after_finish(
                v,
                Some(outcome),
                Ok(t),
            ).handles[k] == v.handles[k],
        after_finish(v, Some(outcome), Ok(t)).next_handle_token == v.next_handle_token,
        after_finish(v, Some(outcome), Ok(t)).sockets == v.sockets,
        after_finish(v, Some(outcome), Ok(t)).running == v.running,
{
}

/// A new event loop runs, holds no socket and no handle, has handed out no
/// token (the first socket gets 2, the first handle 1), waits for no socket,
/// knows no timeout, and has reported no active request.
pub proof fn law_new_event_loop<H>(events_capacity: usize)
    ensures
        ({
            let v = initial_state::<H>(events_capacity);
            &&& v.running
            &&& v.events_capacity == events_capacity
            &&& v.sockets.dom() == Set::<usize>::empty()
            &&& v.handles.dom() == Set::<usize>::empty()
            &&& v.next_socket_token == 2
            &&& v.next_handle_token == 1
            &&& v.assigned_socket is None
            &&& v.timeout is None
            &&& v.reported_requests == 0
            &&& active_requests(v) == 0
        }),
{
}

} // verus!
