//! The life cycle of a TCP socket on the Windows sockets interface.
//!
//! A socket is created, bound, then either connected or made to listen. The
//! caller makes each native call and reports what it returned; this module
//! says what the call is to be given, whether its result counts as success,
//! and in which state the socket is afterwards.
//!
//! Once a socket connects or listens, its handle belongs to the stream or
//! listener built on it, which closes it: from then on this layer closes it
//! no more.

use crate::error::{Error, ErrorKind, SUCCESS, WSAEWOULDBLOCK};
use vstd::prelude::*;

verus! {

/// The IPv4 protocol family.
pub const PF_INET: i32 = 2;

/// The IPv6 protocol family.
pub const PF_INET6: i32 = 23;

/// The socket type of a byte stream.
pub const SOCK_STREAM: i32 = 1;

/// The longest backlog that `listen` can be given.
pub const MAX_BACKLOG: i32 = 0x7fff_ffff;

/// The sockets subsystem of the process, which is started once before the
/// first socket is created.
#[derive(Debug)]
pub struct Subsystem {
    started: bool,
}

/// What `socket` is to be called with, and whether the subsystem is to be
/// started before.
#[derive(Clone, Copy, Debug, PartialEq, Eq, Structural)]
pub struct SocketRequest {
    pub startup: bool,
    pub family: i32,
    pub kind: i32,
}

impl Subsystem {
    /// Whether the subsystem has been started.
    pub closed spec fn started(&self) -> bool {
        self.started
    }

    /// The subsystem of a process that has created no socket yet.
    pub fn new() -> (sys: Subsystem)
        ensures
            !sys.started(),
    {
        Subsystem { started: false }
    }

    /// Whether the subsystem has been started.
    pub fn is_started(&self) -> (started: bool)
        ensures
            started == self.started(),
    {
        self.started
    }

    /// Marks the subsystem as started, and says whether the caller has to
    /// start it: only the first time.
    pub fn init(&mut self) -> (startup: bool)
        ensures
            final(self).started(),
            startup == !old(self).started(),
    {
        let startup: bool = !self.started;
        self.started = true;
        startup
    }
}

/// The request for a stream socket of the family.
fn new_socket(sys: &mut Subsystem, family: i32) -> (request: SocketRequest)
    ensures
        final(sys).started(),
        request == (SocketRequest { startup: !old(sys).started(), family, kind: SOCK_STREAM }),
{
    let startup: bool = sys.init();
    SocketRequest { startup, family, kind: SOCK_STREAM }
}

/// The request for an IPv4 stream socket.
pub fn new_v4_socket(sys: &mut Subsystem) -> (request: SocketRequest)
    ensures
        final(sys).started(),
        request == (SocketRequest { startup: !old(sys).started(), family: PF_INET, kind: SOCK_STREAM }),
{
    new_socket(sys, PF_INET)
}

/// The request for an IPv6 stream socket.
pub fn new_v6_socket(sys: &mut Subsystem) -> (request: SocketRequest)
    ensures
        final(sys).started(),
        request == (SocketRequest {
            startup: !old(sys).started(),
            family: PF_INET6,
            kind: SOCK_STREAM,
        }),
{
    new_socket(sys, PF_INET6)
}

/// Where a socket stands in its life.
#[derive(Clone, Copy, Debug, PartialEq, Eq, Structural)]
pub enum State {
    Created,
    Bound,
    Connecting,
    Listening,
    Established,
    Closed,
}

/// What this layer does to a socket.
#[derive(Clone, Copy, Debug, PartialEq, Eq, Structural)]
pub enum Operation {
    Bind,
    Connect,
    Listen,
    Close,
}

/// How an operation that did not fail ended.
#[derive(Clone, Copy, Debug, PartialEq, Eq, Structural)]
pub enum Progress {
    /// The operation is complete.
    Complete,
    /// The connection is under way; its completion shows as readiness.
    InProgress,
}

/// The result of an operation whose native call returned `ret`, `errno`
/// being the platform's error code if it failed. Closing never fails. A
/// connect that would block is under way and no error; for every other
/// operation that code is an error like any other.
pub open spec fn outcome_of(op: Operation, ret: i32, errno: i32) -> Result<Progress, Error> {
    if op == Operation::Close || ret == SUCCESS {
        Ok(Progress::Complete)
    } else if op == Operation::Connect && Error::Os(errno).kind_of() == ErrorKind::WouldBlock {
        Ok(Progress::InProgress)
    } else {
        Err(Error::Os(errno))
    }
}

/// Whether the handle is still this layer's to close.
pub open spec fn owned(state: State) -> bool {
    state == State::Created || state == State::Bound
}

/// Whether the operation belongs to the life cycle at the state.
pub open spec fn permitted(state: State, op: Operation) -> bool {
    match op {
        Operation::Bind => state == State::Created,
        Operation::Connect => owned(state),
        Operation::Listen => state == State::Bound,
        Operation::Close => owned(state),
    }
}

/// The state in which an operation that did not fail leaves the socket.
pub open spec fn state_after(op: Operation, progress: Progress) -> State {
    match op {
        Operation::Bind => State::Bound,
        Operation::Connect => match progress {
            Progress::Complete => State::Established,
            Progress::InProgress => State::Connecting,
        },
        Operation::Listen => State::Listening,
        Operation::Close => State::Closed,
    }
}

/// The state of the socket after the operation, or `None` where the
/// operation is not permitted at the state. A failed operation leaves the
/// state as it was.
pub open spec fn next_state_of(state: State, op: Operation, outcome: Result<Progress, Error>) -> Option<
    State,
> {
    if !permitted(state, op) {
        None
    } else {
        match outcome {
            Ok(progress) => Some(state_after(op, progress)),
            Err(_) => Some(state),
        }
    }
}

/// How far a state is along the life cycle.
pub open spec fn rank(state: State) -> nat {
    match state {
        State::Created => 0,
        State::Bound => 1,
        State::Connecting => 2,
        State::Listening => 2,
        State::Established => 3,
        State::Closed => 4,
    }
}

/// The backlog handed to `listen`: the one asked for, or the longest
/// possible where that one is longer.
pub open spec fn clamped_backlog(backlog: u32) -> i32 {
    if backlog <= MAX_BACKLOG {
        backlog as i32
    } else {
        MAX_BACKLOG
    }
}

/// Whether this layer may still close the handle in the state.
pub fn is_owned(state: State) -> (r: bool)
    ensures
        r == owned(state),
{
    match state {
        State::Created | State::Bound => true,
        _ => false,
    }
}

/// Whether the operation belongs to the life cycle at the state.
pub fn is_permitted(state: State, op: Operation) -> (r: bool)
    ensures
        r == permitted(state, op),
{
    match op {
        Operation::Bind => matches!(state, State::Created),
        Operation::Connect => is_owned(state),
        Operation::Listen => matches!(state, State::Bound),
        Operation::Close => is_owned(state),
    }
}

/// The result of an operation whose native call returned `ret`, `errno`
/// being the platform's error code if it failed.
pub fn outcome(op: Operation, ret: i32, errno: i32) -> (r: Result<Progress, Error>)
    ensures
        r == outcome_of(op, ret, errno),
{
    match op {
        Operation::Close => Ok(Progress::Complete),
        Operation::Connect => {
            if ret == SUCCESS {
                Ok(Progress::Complete)
            } else if errno == WSAEWOULDBLOCK {
                Ok(Progress::InProgress)
            } else {
                Err(Error::Os(errno))
            }
        },
        _ => {
            if ret == SUCCESS {
                Ok(Progress::Complete)
            } else {
                Err(Error::Os(errno))
            }
        },
    }
}

/// The state of the socket after the operation ended with `outcome`, or
/// `None` where the operation is not permitted at the state.
pub fn next_state(state: State, op: Operation, outcome: Result<Progress, Error>) -> (r: Option<State>)
    ensures
        r == next_state_of(state, op, outcome),
{
    if !is_permitted(state, op) {
        return None;
    }
    match outcome {
        Err(_) => Some(state),
        Ok(progress) => Some(
            match op {
                Operation::Bind => State::Bound,
                Operation::Connect => match progress {
                    Progress::Complete => State::Established,
                    Progress::InProgress => State::Connecting,
                },
                Operation::Listen => State::Listening,
                Operation::Close => State::Closed,
            },
        ),
    }
}

/// The state of a connecting socket once its completion has shown, or
/// `None` for a socket that is not connecting.
pub fn connected(state: State) -> (r: Option<State>)
    ensures
        r == if state == State::Connecting {
            Some(State::Established)
        } else {
            None
        },
{
    match state {
        State::Connecting => Some(State::Established),
        _ => None,
    }
}

/// The state of a connection that a listener accepts, or `None` for a
/// socket that does not listen. The listener stays as it is, and what it
/// accepts takes its non-blocking mode from it: none is applied here.
pub fn accepted(listener: State) -> (r: Option<State>)
    ensures
        r == if listener == State::Listening {
            Some(State::Established)
        } else {
            None
        },
{
    match listener {
        State::Listening => Some(State::Established),
        _ => None,
    }
}

/// The backlog to hand to `listen`.
pub fn listen_backlog(backlog: u32) -> (r: i32)
    ensures
        r == clamped_backlog(backlog),
{
    if backlog <= 0x7fff_ffff {
        backlog as i32
    } else {
        MAX_BACKLOG
    }
}

/// No operation takes a socket back: the state after it is as far along the
/// life cycle as the state before, or farther.
pub proof fn lemma_no_way_back(state: State, op: Operation, outcome: Result<Progress, Error>)
    requires
        next_state_of(state, op, outcome).is_some(),
    ensures
        rank(next_state_of(state, op, outcome).unwrap()) >= rank(state),
{
}

/// A permitted operation that fails leaves the socket in its state.
pub proof fn lemma_failure_keeps_state(state: State, op: Operation, error: Error)
    requires
        permitted(state, op),
    ensures
        next_state_of(state, op, Err(error)) == Some(state),
{
}

/// Closing never reports an error, whatever the native call returned.
pub proof fn lemma_close_never_fails(ret: i32, errno: i32)
    ensures
        outcome_of(Operation::Close, ret, errno) == Ok::<Progress, Error>(Progress::Complete),
{
}

/// Only a connect is ever under way: a call that would block is an error
/// for every other operation that can fail.
pub proof fn lemma_only_connect_is_in_progress(op: Operation, ret: i32, errno: i32)
    ensures
        outcome_of(op, ret, errno) == Ok::<Progress, Error>(Progress::InProgress) <==> op
            == Operation::Connect && ret != SUCCESS && errno == WSAEWOULDBLOCK,
{
}

/// Once a socket connects or listens, this layer may not close it: no
/// operation of its own is permitted in the states that follow.
pub proof fn lemma_transferred_is_final(state: State, op: Operation)
    requires
        !owned(state),
    ensures
        !permitted(state, op),
{
}

/// The backlog handed on is never negative and never more than was asked.
pub proof fn lemma_backlog_bounds(backlog: u32)
    ensures
        0 <= clamped_backlog(backlog) <= backlog,
        backlog <= MAX_BACKLOG ==> clamped_backlog(backlog) == backlog,
{
}

} // verus!
