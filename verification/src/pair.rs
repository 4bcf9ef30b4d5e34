//! The plan by which a connected pair of Unix-domain sockets is created
//! non-blocking and close-on-exec.
//!
//! Where the platform takes both flags with the creation call, one call
//! makes the pair. Where it does not, the pair is created plain and each end
//! is adjusted twice afterwards, so that for a moment the ends exist blocking
//! and inheritable: that window belongs to those platforms and is not closed
//! here.
//!
//! The module decides which call comes next; the caller makes it and reports
//! what it returned.

use crate::uds::{native_family, AF_UNIX};
use vstd::prelude::*;

verus! {

/// How the platform lets the two flags be set.
#[derive(Clone, Copy, Debug, PartialEq, Eq, Structural)]
pub enum Strategy {
    /// The creation call takes the flags.
    Atomic,
    /// The pair is created first and each end adjusted afterwards.
    Adjust,
}

impl Strategy {
    /// The strategy for a platform, given whether its creation call takes
    /// the two flags: the atomic one wherever it does.
    pub fn select(creation_takes_flags: bool) -> (strategy: Strategy)
        ensures
            strategy == if creation_takes_flags {
                Strategy::Atomic
            } else {
                Strategy::Adjust
            },
    {
        if creation_takes_flags {
            Strategy::Atomic
        } else {
            Strategy::Adjust
        }
    }
}

/// The numbers that the platform gives to the families, flags and commands
/// that the plan names.
#[derive(Clone, Copy, Debug, PartialEq, Eq, Structural)]
pub struct Constants {
    pub af_unix: i32,
    pub sock_nonblock: i32,
    pub sock_cloexec: i32,
    pub f_setfl: i32,
    pub o_nonblock: i32,
    pub f_setfd: i32,
    pub fd_cloexec: i32,
}

/// A system call that the plan asks for.
#[derive(Clone, Copy, Debug, PartialEq, Eq, Structural)]
pub enum Call {
    /// `socketpair(domain, kind, protocol)`.
    Create { domain: i32, kind: i32, protocol: i32 },
    /// `fcntl(fd, cmd, arg)` on the end with this index, 0 or 1.
    Adjust { end: u8, cmd: i32, arg: i32 },
}

/// What the caller does next.
#[derive(Clone, Copy, Debug, PartialEq, Eq, Structural)]
pub enum Step {
    /// Make this call and report its result.
    Call(Call),
    /// Both ends are ready.
    Done,
    /// Give up with this platform error code.
    Failed(i32),
}

/// What a failed system call returns.
pub const FAILURE: i32 = -1;

/// The socket type handed to the creation call: with both flags under the
/// atomic strategy, as the caller gave it under the other.
pub open spec fn creation_kind(strategy: Strategy, constants: Constants, flags: i32) -> i32 {
    match strategy {
        Strategy::Atomic => flags | constants.sock_nonblock | constants.sock_cloexec,
        Strategy::Adjust => flags,
    }
}

/// The calls of the plan, in order.
pub open spec fn plan(strategy: Strategy, constants: Constants, flags: i32) -> Seq<Call> {
    let create = Call::Create {
        domain: constants.af_unix,
        kind: creation_kind(strategy, constants, flags),
        protocol: 0,
    };
    match strategy {
        Strategy::Atomic => seq![create],
        Strategy::Adjust => seq![
            create,
            Call::Adjust { end: 0, cmd: constants.f_setfl, arg: constants.o_nonblock },
            Call::Adjust { end: 0, cmd: constants.f_setfd, arg: constants.fd_cloexec },
            Call::Adjust { end: 1, cmd: constants.f_setfl, arg: constants.o_nonblock },
            Call::Adjust { end: 1, cmd: constants.f_setfd, arg: constants.fd_cloexec },
        ],
    }
}

/// The step that follows when `made` calls of the plan have been made and
/// the last of them returned `ret`, with `errno` as the platform's error
/// code: the failure of that call ends the plan with its code, otherwise the
/// next call follows, and after the last one the plan is done.
pub open spec fn step_after(
    strategy: Strategy,
    constants: Constants,
    flags: i32,
    made: nat,
    ret: i32,
    errno: i32,
) -> Step {
    let calls = plan(strategy, constants, flags);
    if ret == FAILURE {
        Step::Failed(errno)
    } else if made < calls.len() {
        Step::Call(calls[made as int])
    } else {
        Step::Done
    }
}

/// Whether the plan asks for the end to be non-blocking: at creation, with
/// a flag that names a bit, or by an adjustment of that end.
pub open spec fn asks_nonblocking(calls: Seq<Call>, constants: Constants, end: u8) -> bool {
    exists|i: int|
        0 <= i < calls.len() && match #[trigger] calls[i] {
            Call::Create { kind, .. } => constants.sock_nonblock != 0 && kind
                & constants.sock_nonblock == constants.sock_nonblock,
            Call::Adjust { end: e, cmd, arg } => e == end && cmd == constants.f_setfl && arg
                == constants.o_nonblock,
        }
}

/// Whether the plan asks for the end to be close-on-exec: at creation, with
/// a flag that names a bit, or by an adjustment of that end.
pub open spec fn asks_cloexec(calls: Seq<Call>, constants: Constants, end: u8) -> bool {
    exists|i: int|
        0 <= i < calls.len() && match #[trigger] calls[i] {
            Call::Create { kind, .. } => constants.sock_cloexec != 0 && kind
                & constants.sock_cloexec == constants.sock_cloexec,
            Call::Adjust { end: e, cmd, arg } => e == end && cmd == constants.f_setfd && arg
                == constants.fd_cloexec,
        }
}

/// Reads libc's `SOCK_NONBLOCK`, `SOCK_CLOEXEC`, `F_SETFL`, `O_NONBLOCK`, `F_SETFD`
/// and `FD_CLOEXEC` into the fields of their names, beside the family given.
/// Their numbers differ from platform to platform and none is claimed.
/// Claimed is [`Constants::well_formed`]: in every definition that libc
/// gives them, none of the four flags is zero and the two commands have
/// different numbers.
#[verifier::external_body]
fn native_constants(af_unix: i32) -> (constants: Constants)
    ensures
        constants.af_unix == af_unix,
        constants.well_formed(),
{
    Constants {
        af_unix,
        sock_nonblock: libc::SOCK_NONBLOCK,
        sock_cloexec: libc::SOCK_CLOEXEC,
        f_setfl: libc::F_SETFL,
        o_nonblock: libc::O_NONBLOCK,
        f_setfd: libc::F_SETFD,
        fd_cloexec: libc::FD_CLOEXEC,
    }
}

impl Constants {
    /// The constants of the native platform, as libc declares them: the
    /// family of Unix-domain sockets, and flags and commands whose numbers
    /// are the platform's own.
    pub fn native() -> (constants: Constants)
        ensures
            constants.af_unix == AF_UNIX as i32,
            constants.well_formed(),
    {
        let family: u16 = native_family();
        native_constants(family as i32)
    }

    /// Whether the constants can carry the plan: each flag names at least
    /// one bit, and the command that sets the status flags is not the one
    /// that sets the descriptor flags. The numbers differ from platform to
    /// platform; this much they have in common.
    pub open spec fn well_formed(self) -> bool {
        &&& self.sock_nonblock != 0
        &&& self.sock_cloexec != 0
        &&& self.o_nonblock != 0
        &&& self.fd_cloexec != 0
        &&& self.f_setfl != self.f_setfd
    }

    /// Whether the constants can carry the plan.
    pub fn is_well_formed(&self) -> (r: bool)
        ensures
            r == self.well_formed(),
    {
        self.sock_nonblock != 0 && self.sock_cloexec != 0 && self.o_nonblock != 0
            && self.fd_cloexec != 0 && self.f_setfl != self.f_setfd
    }
}

/// The call that creates the pair.
fn creation(strategy: Strategy, constants: &Constants, flags: i32) -> (call: Call)
    ensures
        call == plan(strategy, *constants, flags)[0],
{
    let kind: i32 = match strategy {
        Strategy::Atomic => flags | constants.sock_nonblock | constants.sock_cloexec,
        Strategy::Adjust => flags,
    };
    Call::Create { domain: constants.af_unix, kind, protocol: 0 }
}

/// The first step: the call that creates the pair.
pub fn begin(strategy: Strategy, constants: &Constants, flags: i32) -> (step: Step)
    ensures
        step == Step::Call(plan(strategy, *constants, flags)[0]),
{
    Step::Call(creation(strategy, constants, flags))
}

/// The step that follows when `made` calls have been made and the last of
/// them returned `ret`, `errno` being the platform's error code if it
/// failed.
pub fn resume(
    strategy: Strategy,
    constants: &Constants,
    flags: i32,
    made: usize,
    ret: i32,
    errno: i32,
) -> (step: Step)
    ensures
        step == step_after(strategy, *constants, flags, made as nat, ret, errno),
{
    if ret == FAILURE {
        return Step::Failed(errno);
    }
    match strategy {
        Strategy::Atomic => {
            if made == 0 {
                Step::Call(creation(strategy, constants, flags))
            } else {
                Step::Done
            }
        },
        Strategy::Adjust => {
            if made == 0 {
                Step::Call(creation(strategy, constants, flags))
            } else if made == 1 {
                Step::Call(Call::Adjust { end: 0, cmd: constants.f_setfl, arg: constants.o_nonblock })
            } else if made == 2 {
                Step::Call(Call::Adjust { end: 0, cmd: constants.f_setfd, arg: constants.fd_cloexec })
            } else if made == 3 {
                Step::Call(Call::Adjust { end: 1, cmd: constants.f_setfl, arg: constants.o_nonblock })
            } else if made == 4 {
                Step::Call(Call::Adjust { end: 1, cmd: constants.f_setfd, arg: constants.fd_cloexec })
            } else {
                Step::Done
            }
        },
    }
}

/// Under either strategy the plan asks for both ends to be non-blocking and
/// close-on-exec. Where the creation call is to take the flags, each of them
/// has to name a bit.
pub proof fn lemma_both_ends_asked(strategy: Strategy, constants: Constants, flags: i32, end: u8)
    requires
        strategy == Strategy::Atomic ==> constants.sock_nonblock != 0 && constants.sock_cloexec
            != 0,
        end == 0 || end == 1,
    ensures
        asks_nonblocking(plan(strategy, constants, flags), constants, end),
        asks_cloexec(plan(strategy, constants, flags), constants, end),
{
    let calls = plan(strategy, constants, flags);
    let nb = constants.sock_nonblock;
    let cx = constants.sock_cloexec;
    match strategy {
        Strategy::Atomic => {
            assert((flags | nb | cx) & nb == nb) by (bit_vector);
            assert((flags | nb | cx) & cx == cx) by (bit_vector);
            assert(calls[0] == Call::Create {
                domain: constants.af_unix,
                kind: flags | nb | cx,
                protocol: 0,
            });
        },
        Strategy::Adjust => {
            if end == 0 {
                assert(calls[1] == Call::Adjust {
                    end: 0,
                    cmd: constants.f_setfl,
                    arg: constants.o_nonblock,
                });
                assert(calls[2] == Call::Adjust {
                    end: 0,
                    cmd: constants.f_setfd,
                    arg: constants.fd_cloexec,
                });
            } else {
                assert(calls[3] == Call::Adjust {
                    end: 1,
                    cmd: constants.f_setfl,
                    arg: constants.o_nonblock,
                });
                assert(calls[4] == Call::Adjust {
                    end: 1,
                    cmd: constants.f_setfd,
                    arg: constants.fd_cloexec,
                });
            }
        },
    }
}

/// Where each creation flag names a bit, the atomic creation carries a bit
/// of each, whatever socket type the caller asked for.
pub proof fn lemma_creation_carries_flags(constants: Constants, flags: i32)
    requires
        constants.sock_nonblock != 0,
        constants.sock_cloexec != 0,
    ensures
        creation_kind(Strategy::Atomic, constants, flags) & constants.sock_nonblock != 0,
        creation_kind(Strategy::Atomic, constants, flags) & constants.sock_cloexec != 0,
{
    let nb = constants.sock_nonblock;
    let cx = constants.sock_cloexec;
    assert(nb != 0 ==> (flags | nb | cx) & nb != 0) by (bit_vector);
    assert(cx != 0 ==> (flags | nb | cx) & cx != 0) by (bit_vector);
}

/// Where the two commands differ, no call of the adjusting plan is made
/// twice: each adjustment sets another flag or another end.
pub proof fn lemma_adjustments_differ(constants: Constants, flags: i32, i: int, j: int)
    requires
        constants.f_setfl != constants.f_setfd,
        0 <= i < j < 5,
    ensures
        plan(Strategy::Adjust, constants, flags)[i] != plan(Strategy::Adjust, constants, flags)[j],
{
}

/// The atomic plan is one call; the other is the creation and four
/// adjustments.
pub proof fn lemma_plan_len(strategy: Strategy, constants: Constants, flags: i32)
    ensures
        plan(strategy, constants, flags).len() == match strategy {
            Strategy::Atomic => 1nat,
            Strategy::Adjust => 5nat,
        },
{
}

/// The plan is done only when every call has been made and the last one did
/// not fail; a failed call ends it at once with that call's error code.
pub proof fn lemma_done_only_after_all(
    strategy: Strategy,
    constants: Constants,
    flags: i32,
    made: nat,
    ret: i32,
    errno: i32,
)
    ensures
        step_after(strategy, constants, flags, made, ret, errno) == Step::Done <==> ret != FAILURE
            && made >= plan(strategy, constants, flags).len(),
        ret == FAILURE ==> step_after(strategy, constants, flags, made, ret, errno) == Step::Failed(
            errno,
        ),
{
}

} // verus!
