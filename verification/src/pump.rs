//! The async-operation bridge: a nested message pump that turns a
//! callback-style asynchronous platform operation into a blocking call.
//!
//! The caller starts the operation, handing the platform a completion
//! handler that forwards the outcome into a one-shot channel, and then
//! pumps the thread's message queue until the channel yields: the platform
//! delivers the completion notification as one of those messages, so the
//! pumping is what lets the operation finish.  The library models each turn
//! of that loop as a tick — either the channel is ready, or one message was
//! retrieved — and pins the decision taken on every tick.  Retrieving and
//! dispatching the native messages themselves is platform work and stays
//! outside the library.

use vstd::prelude::*;
use crate::error::Error;

verus! {

/// The reserved, otherwise-unhandled message a submitter posts to wake a
/// blocked message-retrieval call.
pub const WAKE_MESSAGE: u32 = 0x8000;

/// What one retrieval of a native message reported: a fatal platform error
/// with its status code, the quit signal, or an ordinary message carrying
/// its message identifier.
#[derive(Debug, Clone, Copy, PartialEq, Eq, Structural)]
pub enum MsgResult {
    Fatal(i32),
    Quit,
    Msg(u32),
}

/// One turn of the nested pump: either the completion channel held the
/// operation's outcome, or it was still empty and a message was retrieved.
pub enum PumpTick<T> {
    Ready(T),
    Pump(MsgResult),
}

/// The decision one tick forces: return the delivered value, propagate a
/// fatal platform error, report cancellation on the quit signal, or keep
/// pumping.
pub open spec fn spec_pump_step<T>(t: PumpTick<T>) -> Option<Result<T, Error>> {
    match t {
        PumpTick::Ready(v) => Some(Ok(v)),
        PumpTick::Pump(MsgResult::Fatal(c)) => Some(Err(Error::WindowsError(c))),
        PumpTick::Pump(MsgResult::Quit) => Some(Err(Error::TaskCanceled)),
        PumpTick::Pump(MsgResult::Msg(_)) => None,
    }
}

/// What a whole wait comes to: the decision of the first decisive tick, or
/// nothing when no tick decides.
pub open spec fn spec_pump_result<T>(ticks: Seq<PumpTick<T>>) -> Option<Result<T, Error>>
    decreases ticks.len(),
{
    if ticks.len() == 0 {
        None
    } else if spec_pump_step(ticks[0]) is Some {
        spec_pump_step(ticks[0])
    } else {
        spec_pump_result(ticks.drop_first())
    }
}

/// Decides one turn of the nested pump.  A delivered value returns as is;
/// a fatal retrieval error propagates; the quit signal, arriving while the
/// operation is still pending, reports the wait as cancelled; any ordinary
/// message asks the caller to dispatch it and pump on.
pub fn pump_step<T>(tick: PumpTick<T>) -> (r: Option<Result<T, Error>>)
    ensures
        r == spec_pump_step(tick),
{
    match tick {
        PumpTick::Ready(v) => Some(Ok(v)),
        PumpTick::Pump(MsgResult::Fatal(c)) => Some(Err(Error::WindowsError(c))),
        PumpTick::Pump(MsgResult::Quit) => Some(Err(Error::TaskCanceled)),
        PumpTick::Pump(MsgResult::Msg(_)) => None,
    }
}

/// Runs a whole wait over the ticks the platform produced, in order,
/// returning the first decisive tick's outcome: the exact value the
/// completion handler delivered, or the error that ended the wait first.
pub fn wait_with_pump<T>(ticks: &mut Vec<PumpTick<T>>) -> (r: Result<T, Error>)
    requires
        spec_pump_result(old(ticks)@) is Some,
    ensures
        Some(r) == spec_pump_result(old(ticks)@),
{
    while ticks.len() > 0
        invariant
            spec_pump_result(ticks@) == spec_pump_result(old(ticks)@),
            spec_pump_result(old(ticks)@) is Some,
        decreases ticks@.len(),
    {
        let ghost before = ticks@;
        let t = ticks.remove(0);
        match pump_step(t) {
            Some(res) => {
                return res;
            },
            None => {
                proof {
                    assert(ticks@ =~= before.drop_first());
                }
            },
        }
    }
    proof {
        assert(false);
    }
    Err(Error::TaskCanceled)
}

/// A wait whose channel was already signaled before any pumping began
/// returns the delivered value at once: it never hangs and never consults
/// the message queue's content.
pub proof fn lemma_pump_ready_first<T>(ticks: Seq<PumpTick<T>>, v: T)
    requires
        ticks.len() > 0,
        ticks[0] == PumpTick::Ready(v),
    ensures
        spec_pump_result(ticks) == Some(Ok::<T, Error>(v)),
{
}

/// A quit signal that arrives while the operation is still pending ends
/// the wait as cancelled: if every earlier tick was an ordinary message,
/// the wait reports cancellation, not a value.
pub proof fn lemma_pump_quit_before_ready<T>(ticks: Seq<PumpTick<T>>, i: int)
    requires
        0 <= i < ticks.len(),
        ticks[i] == PumpTick::Pump::<T>(MsgResult::Quit),
        forall|j: int| 0 <= j < i ==> spec_pump_step(ticks[j]) is None,
    ensures
        spec_pump_result(ticks) == Some(Err::<T, Error>(Error::TaskCanceled)),
    decreases i,
{
    if i > 0 {
        lemma_pump_quit_before_ready(ticks.drop_first(), i - 1);
    }
}

} // verus!
