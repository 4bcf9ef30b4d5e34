//! The native encodings of socket options.
//!
//! Each option has a value that is handed to the native call that sets it,
//! and a function that reads the option back from what the native query
//! filled in. The caller makes the calls.

use crate::error::{Error, SUCCESS};
use crate::time::{Duration, NANOS_PER_MILLI, NANOS_PER_SEC};
use vstd::prelude::*;

verus! {

/// The native `TRUE`.
pub const TRUE: i32 = 1;

/// The native `FALSE`.
pub const FALSE: i32 = 0;

/// The longest keep-alive time that the native block can hold, in
/// milliseconds: the most that its 32-bit fields express.
pub const MAX_KEEPALIVE_MILLIS: u32 = 0xffff_ffff;

/// The native linger block.
#[derive(Clone, Copy, Debug, PartialEq, Eq, Structural)]
pub struct Linger {
    pub l_onoff: u16,
    pub l_linger: u16,
}

/// The native keep-alive block.
#[derive(Clone, Copy, Debug, PartialEq, Eq, Structural)]
pub struct KeepAlive {
    pub onoff: u32,
    pub keepalivetime: u32,
    pub keepaliveinterval: u32,
}

/// An optional span as its length in nanoseconds.
pub open spec fn span(dur: Option<Duration>) -> Option<nat> {
    match dur {
        Some(d) => Some(d@),
        None => None,
    }
}

/// The flag that sets or clears address reuse.
pub open spec fn reuseaddr_flag(reuseaddr: bool) -> i32 {
    if reuseaddr {
        TRUE
    } else {
        FALSE
    }
}

/// The linger block for a span in nanoseconds: off and zero for none, else
/// on with the whole seconds of the span, as far as sixteen bits hold them.
pub open spec fn linger_of(dur: Option<nat>) -> Linger {
    match dur {
        Some(nanos) => Linger {
            l_onoff: 1,
            l_linger: ((nanos / (NANOS_PER_SEC as nat)) % 0x1_0000) as u16,
        },
        None => Linger { l_onoff: 0, l_linger: 0 },
    }
}

/// The span, in nanoseconds, that a linger block stands for.
pub open spec fn linger_span(val: Linger) -> Option<nat> {
    if val.l_onoff == 0 {
        None
    } else {
        Some((val.l_linger * NANOS_PER_SEC) as nat)
    }
}

/// The milliseconds handed on for a span in nanoseconds: its whole
/// milliseconds, or the most that the field holds where they are more.
pub open spec fn keepalive_millis(nanos: nat) -> u32 {
    let millis = nanos / (NANOS_PER_MILLI as nat);
    if millis <= MAX_KEEPALIVE_MILLIS {
        millis as u32
    } else {
        MAX_KEEPALIVE_MILLIS
    }
}

/// The keep-alive block for a span in nanoseconds: off and zero for none,
/// else on with the span as both the idle time and the probe interval.
pub open spec fn keepalive_of(dur: Option<nat>) -> KeepAlive {
    match dur {
        Some(nanos) => KeepAlive {
            onoff: 1,
            keepalivetime: keepalive_millis(nanos),
            keepaliveinterval: keepalive_millis(nanos),
        },
        None => KeepAlive { onoff: 0, keepalivetime: 0, keepaliveinterval: 0 },
    }
}

/// The span, in nanoseconds, that a keep-alive block stands for: none where
/// it is off or its interval is zero.
pub open spec fn keepalive_span(val: KeepAlive) -> Option<nat> {
    if val.onoff == 0 || val.keepaliveinterval == 0 {
        None
    } else {
        Some((val.keepaliveinterval * NANOS_PER_MILLI) as nat)
    }
}

/// The value to set address reuse with.
pub fn reuseaddr_value(reuseaddr: bool) -> (val: i32)
    ensures
        val == reuseaddr_flag(reuseaddr),
{
    if reuseaddr {
        TRUE
    } else {
        FALSE
    }
}

/// Reads address reuse from what the query filled in: on for any flag but
/// zero. `ret` is what the query returned, `errno` the platform's error
/// code if it failed.
pub fn get_reuseaddr(ret: i32, errno: i32, optval: i32) -> (r: Result<bool, Error>)
    ensures
        r.is_ok() <==> ret == SUCCESS,
        r matches Ok(on) ==> on == (optval != 0),
        r matches Err(e) ==> e == Error::Os(errno),
{
    if ret == SUCCESS {
        Ok(optval != 0)
    } else {
        Err(Error::Os(errno))
    }
}

/// The value to set linger with.
pub fn linger_value(dur: Option<Duration>) -> (val: Linger)
    ensures
        val == linger_of(span(dur)),
{
    match dur {
        Some(d) => {
            let secs: u64 = d.as_secs();
            Linger { l_onoff: 1, l_linger: (secs % 0x1_0000) as u16 }
        },
        None => Linger { l_onoff: 0, l_linger: 0 },
    }
}

/// Reads linger from what the query filled in.
pub fn get_linger(ret: i32, errno: i32, val: Linger) -> (r: Result<Option<Duration>, Error>)
    ensures
        r.is_ok() <==> ret == SUCCESS,
        r matches Ok(dur) ==> span(dur) == linger_span(val),
        r matches Err(e) ==> e == Error::Os(errno),
{
    if ret != SUCCESS {
        Err(Error::Os(errno))
    } else if val.l_onoff == 0 {
        Ok(None)
    } else {
        Ok(Some(Duration::from_secs(val.l_linger as u64)))
    }
}

/// The value to set keep-alive with.
pub fn keepalive_value(dur: Option<Duration>) -> (val: KeepAlive)
    ensures
        val == keepalive_of(span(dur)),
{
    match dur {
        Some(d) => {
            let millis: u128 = d.as_millis();
            let handed: u32 = if millis <= 0xffff_ffff {
                millis as u32
            } else {
                MAX_KEEPALIVE_MILLIS
            };
            KeepAlive { onoff: 1, keepalivetime: handed, keepaliveinterval: handed }
        },
        None => KeepAlive { onoff: 0, keepalivetime: 0, keepaliveinterval: 0 },
    }
}

/// Reads keep-alive from what the query filled in. A block that is on with
/// an interval of zero reads as off.
pub fn get_keepalive(ret: i32, errno: i32, val: KeepAlive) -> (r: Result<Option<Duration>, Error>)
    ensures
        r.is_ok() <==> ret == SUCCESS,
        r matches Ok(dur) ==> span(dur) == keepalive_span(val),
        r matches Err(e) ==> e == Error::Os(errno),
{
    if ret != SUCCESS {
        Err(Error::Os(errno))
    } else if val.onoff == 0 || val.keepaliveinterval == 0 {
        Ok(None)
    } else {
        Ok(Some(Duration::from_millis(val.keepaliveinterval as u64)))
    }
}

/// Address reuse reads back as it was set.
pub proof fn lemma_reuseaddr_round_trip(reuseaddr: bool)
    ensures
        (reuseaddr_flag(reuseaddr) != 0) == reuseaddr,
{
}

/// Linger reads back as it was set, less the part of a second: off for
/// none, else the whole seconds of the span, where they fit sixteen bits.
pub proof fn lemma_linger_round_trip(dur: Option<nat>)
    requires
        dur matches Some(nanos) ==> nanos / (NANOS_PER_SEC as nat) < 0x1_0000,
    ensures
        linger_span(linger_of(dur)) == match dur {
            Some(nanos) => Some(((nanos / (NANOS_PER_SEC as nat)) * NANOS_PER_SEC) as nat),
            None => None,
        },
{
}

/// Keep-alive reads back as it was set, less the part of a millisecond: off
/// for none, else the whole milliseconds of the span, where they are at
/// least one and no more than the field holds.
pub proof fn lemma_keepalive_round_trip(dur: Option<nat>)
    requires
        dur matches Some(nanos) ==> 1 <= nanos / (NANOS_PER_MILLI as nat) <= MAX_KEEPALIVE_MILLIS,
    ensures
        keepalive_span(keepalive_of(dur)) == match dur {
            Some(nanos) => Some(((nanos / (NANOS_PER_MILLI as nat)) * NANOS_PER_MILLI) as nat),
            None => None,
        },
{
}

/// A span of less than a millisecond reads back as off, and one beyond the
/// most that the field holds reads back as that most.
pub proof fn lemma_keepalive_limits(nanos: nat)
    ensures
        nanos < NANOS_PER_MILLI ==> keepalive_span(keepalive_of(Some(nanos))) == None::<nat>,
        nanos / (NANOS_PER_MILLI as nat) > MAX_KEEPALIVE_MILLIS ==> keepalive_span(
            keepalive_of(Some(nanos)),
        ) == Some((MAX_KEEPALIVE_MILLIS * NANOS_PER_MILLI) as nat),
{
}

/// Both fields of an encoded keep-alive block hold the same time.
pub proof fn lemma_keepalive_fields_agree(dur: Option<nat>)
    ensures
        keepalive_of(dur).keepalivetime == keepalive_of(dur).keepaliveinterval,
        keepalive_of(dur).onoff == 1 <==> dur.is_some(),
{
}

} // verus!
