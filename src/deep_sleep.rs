//! The deep-sleep protocol: a guest that waits on an outside trigger is
//! suspended with its continuation captured, and later resumed from exactly
//! where it stopped.
//!
//! The controller decides; its caller does the work. Each decision is an
//! [`Action`] for the caller to perform, and the caller reports what came of
//! it as the next [`Event`].
use vstd::prelude::*;
use crate::error::{WasiError, WasiRuntimeError};
use crate::exit::{errno_exit_code, errno_is_success, noexec_exit_code, normalized, wasi_exit_code, NOEXEC};

verus! {

/// A captured continuation of a guest.
#[derive(Debug)]
pub struct RewindState {
    /// The guest's value stack.
    pub memory_stack: Vec<u8>,
    /// The internal rewind stack.
    pub rewind_stack: Vec<u8>,
    /// Opaque data of the store.
    pub store_data: Vec<u8>,
    /// Whether the continuation is decoded with 64-bit addresses.
    pub is_64bit: bool,
}

/// How a call of the guest's entry point ended.
#[derive(Debug)]
pub enum CallOutcome {
    /// It returned.
    Returned,
    /// It asked to sleep until a trigger resolves, leaving this continuation.
    DeepSleep(RewindState),
    /// It failed.
    Failed(WasiRuntimeError),
}

/// Where a run stands.
#[derive(Debug, Clone, Copy, PartialEq, Eq, Structural)]
pub enum Phase {
    /// A continuation is being replayed into the guest.
    Rewinding,
    /// The entry point is being called.
    Running,
    /// A continuation is held while the trigger is awaited.
    Suspended,
    /// The final result was delivered.
    Done,
}

/// What the caller reports.
#[derive(Debug)]
pub enum Event {
    /// The continuation was replayed; `errno` is the status, 0 for success.
    Replayed { errno: u16 },
    /// The instance could not be cloned for the call.
    InstanceUnavailable,
    /// The entry point is not exported.
    EntryMissing(String),
    /// The entry point was called.
    EntryReturned(CallOutcome),
    /// The awaited trigger resolved with this payload.
    Triggered(Vec<u8>),
}

/// What the controller asks of the caller.
#[derive(Debug)]
pub enum Action {
    /// Replay `rewind` into the guest, with the width its flag selects, and
    /// hand it `result` as the outcome of the operation that slept.
    Replay { rewind: RewindState, result: Vec<u8> },
    /// Clone the instance, look up its entry point and call it.
    CallEntry,
    /// Register the resumption with the trigger and release the worker.
    AwaitTrigger,
    /// Tear the environment down with `exit_code` and deliver `result`.
    Finish { result: Result<(), WasiRuntimeError>, exit_code: Option<u16> },
}

/// The controller of one guest run.
#[derive(Debug)]
pub struct DeepSleepRun {
    pub phase: Phase,
    /// The continuation held while suspended.
    pub pending: Option<RewindState>,
}

impl DeepSleepRun {
    /// A continuation is held exactly while the run is suspended.
    pub open spec fn wf(&self) -> bool {
        self.pending is Some <==> self.phase == Phase::Suspended
    }

    /// Whether the run can take `ev` in its phase.
    pub open spec fn spec_accepts(&self, ev: Event) -> bool {
        match ev {
            Event::Replayed { .. } => self.phase == Phase::Rewinding,
            Event::InstanceUnavailable => self.phase == Phase::Running,
            Event::EntryMissing(_) => self.phase == Phase::Running,
            Event::EntryReturned(_) => self.phase == Phase::Running,
            Event::Triggered(_) => self.phase == Phase::Suspended,
        }
    }

    /// The first decision of a run: replay the continuation if there is one,
    /// else call the entry point.
    pub open spec fn spec_start(rewind: Option<(RewindState, Vec<u8>)>) -> (DeepSleepRun, Action) {
        match rewind {
            Some((rs, result)) => (
                DeepSleepRun { phase: Phase::Rewinding, pending: None },
                Action::Replay { rewind: rs, result },
            ),
            None => (DeepSleepRun { phase: Phase::Running, pending: None }, Action::CallEntry),
        }
    }

    /// The decision that `ev` brings about.
    pub open spec fn spec_step(self, ev: Event) -> (DeepSleepRun, Action) {
        let done = DeepSleepRun { phase: Phase::Done, pending: None };
        match ev {
            Event::Replayed { errno } => if errno == 0 {
                (DeepSleepRun { phase: Phase::Running, pending: None }, Action::CallEntry)
            } else {
                let code = (errno % 256) as u16;
                (
                    done,
                    Action::Finish {
                        result: Err(WasiRuntimeError::Wasi(WasiError::Exit(code))),
                        exit_code: Some(code),
                    },
                )
            },
            Event::InstanceUnavailable => (
                done,
                Action::Finish {
                    result: Err(WasiRuntimeError::Wasi(WasiError::Exit(NOEXEC))),
                    exit_code: None,
                },
            ),
            Event::EntryMissing(m) => (
                done,
                Action::Finish { result: Err(WasiRuntimeError::Export(m)), exit_code: None },
            ),
            Event::EntryReturned(CallOutcome::DeepSleep(rs)) => (
                DeepSleepRun { phase: Phase::Suspended, pending: Some(rs) },
                Action::AwaitTrigger,
            ),
            Event::EntryReturned(CallOutcome::Returned) => (
                done,
                Action::Finish {
                    result: normalized(Ok(())).0,
                    exit_code: Some(normalized(Ok(())).1),
                },
            ),
            Event::EntryReturned(CallOutcome::Failed(e)) => (
                done,
                Action::Finish {
                    result: normalized(Err(e)).0,
                    exit_code: Some(normalized(Err(e)).1),
                },
            ),
            Event::Triggered(payload) => (
                DeepSleepRun { phase: Phase::Rewinding, pending: None },
                Action::Replay { rewind: self.pending.unwrap(), result: payload },
            ),
        }
    }

    /// Starts a run, from a continuation and the payload that resumes it, or
    /// from the entry point.
    pub fn start(rewind: Option<(RewindState, Vec<u8>)>) -> (r: (DeepSleepRun, Action))
        ensures
            r == Self::spec_start(rewind),
            r.0.wf(),
    {
        match rewind {
            Some((rs, result)) => (
                DeepSleepRun { phase: Phase::Rewinding, pending: None },
                Action::Replay { rewind: rs, result },
            ),
            None => (DeepSleepRun { phase: Phase::Running, pending: None }, Action::CallEntry),
        }
    }

    /// Whether the run can take `ev` in its phase.
    pub fn accepts(&self, ev: &Event) -> (r: bool)
        ensures
            r == self.spec_accepts(*ev),
    {
        match ev {
            Event::Replayed { .. } => self.phase == Phase::Rewinding,
            Event::InstanceUnavailable => self.phase == Phase::Running,
            Event::EntryMissing(_) => self.phase == Phase::Running,
            Event::EntryReturned(_) => self.phase == Phase::Running,
            Event::Triggered(_) => self.phase == Phase::Suspended,
        }
    }

    /// Takes `ev` and decides what comes next.
    pub fn step(self, ev: Event) -> (r: (DeepSleepRun, Action))
        requires
            self.wf(),
            self.spec_accepts(ev),
        ensures
            r == self.spec_step(ev),
            r.0.wf(),
    {
        match ev {
            Event::Replayed { errno } => {
                if errno_is_success(errno) {
                    (DeepSleepRun { phase: Phase::Running, pending: None }, Action::CallEntry)
                } else {
                    let code = errno_exit_code(errno);
                    (
                        DeepSleepRun { phase: Phase::Done, pending: None },
                        Action::Finish {
                            result: Err(WasiRuntimeError::Wasi(WasiError::Exit(code))),
                            exit_code: Some(code),
                        },
                    )
                }
            },
            Event::InstanceUnavailable => (
                DeepSleepRun { phase: Phase::Done, pending: None },
                Action::Finish {
                    result: Err(WasiRuntimeError::Wasi(WasiError::Exit(noexec_exit_code()))),
                    exit_code: None,
                },
            ),
            Event::EntryMissing(m) => (
                DeepSleepRun { phase: Phase::Done, pending: None },
                Action::Finish { result: Err(WasiRuntimeError::Export(m)), exit_code: None },
            ),
            Event::EntryReturned(CallOutcome::DeepSleep(rs)) => (
                DeepSleepRun { phase: Phase::Suspended, pending: Some(rs) },
                Action::AwaitTrigger,
            ),
            Event::EntryReturned(CallOutcome::Returned) => {
                let (result, code) = wasi_exit_code(Ok(()));
                (
                    DeepSleepRun { phase: Phase::Done, pending: None },
                    Action::Finish { result, exit_code: Some(code) },
                )
            },
            Event::EntryReturned(CallOutcome::Failed(e)) => {
                let (result, code) = wasi_exit_code(Err(e));
                (
                    DeepSleepRun { phase: Phase::Done, pending: None },
                    Action::Finish { result, exit_code: Some(code) },
                )
            },
            Event::Triggered(payload) => {
                let rs = self.pending.unwrap();
                (
                    DeepSleepRun { phase: Phase::Rewinding, pending: None },
                    Action::Replay { rewind: rs, result: payload },
                )
            },
        }
    }
}

/// The actions that a run takes on `events`, in order; an event that the run
/// cannot take in its phase is passed over.
pub open spec fn run_actions(s: DeepSleepRun, events: Seq<Event>) -> Seq<Action>
    decreases events.len(),
{
    if events.len() == 0 {
        Seq::empty()
    } else if s.spec_accepts(events[0]) {
        let (next, a) = s.spec_step(events[0]);
        seq![a] + run_actions(next, events.drop_first())
    } else {
        run_actions(s, events.drop_first())
    }
}

/// The events of `schedule` that go to the first run (`true`) or to the
/// second (`false`), in order.
pub open spec fn events_for(schedule: Seq<(bool, Event)>, first: bool) -> Seq<Event>
    decreases schedule.len(),
{
    if schedule.len() == 0 {
        Seq::empty()
    } else if schedule[0].0 == first {
        seq![schedule[0].1] + events_for(schedule.drop_first(), first)
    } else {
        events_for(schedule.drop_first(), first)
    }
}

/// The actions of two runs whose events arrive interleaved as `schedule`
/// says: each event goes to the run it is marked for.
pub open spec fn interleaved_actions(
    s1: DeepSleepRun,
    s2: DeepSleepRun,
    schedule: Seq<(bool, Event)>,
) -> (Seq<Action>, Seq<Action>)
    decreases schedule.len(),
{
    if schedule.len() == 0 {
        (Seq::empty(), Seq::empty())
    } else {
        let (first, ev) = schedule[0];
        let rest = schedule.drop_first();
        if first {
            if s1.spec_accepts(ev) {
                let (next, a) = s1.spec_step(ev);
                let (t1, t2) = interleaved_actions(next, s2, rest);
                (seq![a] + t1, t2)
            } else {
                interleaved_actions(s1, s2, rest)
            }
        } else {
            if s2.spec_accepts(ev) {
                let (next, a) = s2.spec_step(ev);
                let (t1, t2) = interleaved_actions(s1, next, rest);
                (t1, seq![a] + t2)
            } else {
                interleaved_actions(s1, s2, rest)
            }
        }
    }
}

} // verus!
