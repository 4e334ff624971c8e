//! Properties that hold across the library's operations.
use vstd::prelude::*;
use crate::builder::{assembled_fs, WasiEnvBuilderView};
use crate::deep_sleep::{
    events_for, interleaved_actions, run_actions, Action, DeepSleepRun, Event, Phase,
};
use crate::error::WasiRuntimeError;
use crate::exit::normalized;
use crate::fs::{WasiFs, WasiFsRoot};
use crate::preopen::PreopenDirBuilderView;
use crate::text::{has_byte, utf8};
use crate::validate::{env_key_ok, env_pair_ok, first_bad_arg, EQUALS, NUL};
use crate::error::WasiStateCreationError;

verus! {

/// A variable whose key holds `=`, or whose key or value holds a nul byte,
/// makes assembly fail. A value may hold `=`: a pair with a sound key and a
/// nul-free value is accepted whatever else the value holds.
pub proof fn env_pair_rules(v: WasiEnvBuilderView, i: int)
    requires
        0 <= i < v.envs.len(),
    ensures
        has_byte(utf8(v.envs[i].0), EQUALS) ==> !v.assembles(),
        has_byte(utf8(v.envs[i].0), NUL) ==> !v.assembles(),
        has_byte(v.envs[i].1, NUL) ==> !v.assembles(),
        env_key_ok(v.envs[i].0) && !has_byte(v.envs[i].1, NUL) ==> env_pair_ok(v.envs[i]),
{
    if has_byte(utf8(v.envs[i].0), EQUALS) || has_byte(utf8(v.envs[i].0), NUL) {
        let k = choose|k: int|
            0 <= k < utf8(v.envs[i].0).len() && (utf8(v.envs[i].0)[k] == EQUALS || utf8(
                v.envs[i].0,
            )[k] == NUL);
        assert(!env_key_ok(v.envs[i].0));
        assert(!env_pair_ok(v.envs[i]));
    }
    if has_byte(v.envs[i].1, NUL) {
        assert(!env_pair_ok(v.envs[i]));
    }
}

/// An argument list with a nul byte anywhere makes assembly fail, and the
/// error reports the first offending argument whole.
pub proof fn nul_argument_rule(v: WasiEnvBuilderView, i: int, e: WasiStateCreationError)
    requires
        0 <= i < v.args.len(),
        has_byte(utf8(v.args[i]), NUL),
        v.reports(e),
    ensures
        !v.assembles(),
        exists|j: int|
            first_bad_arg(v.args, j) && (e matches WasiStateCreationError::ArgumentContainsNulByte(a)
                && a@ == v.args[j]),
{
    assert(!v.args_ok());
}

/// A directory with no permission is refused; one built with `create` is
/// writable even if `write` was never set.
pub proof fn preopen_permission_rules(b: PreopenDirBuilderView)
    ensures
        !(b.read || b.write || b.create) ==> !b.buildable(),
        b.buildable() && b.create ==> b.built().write,
{
}

/// A directory with no host path is refused.
pub proof fn preopen_path_rule(b: PreopenDirBuilderView)
    ensures
        b.path is None ==> !b.buildable(),
{
}

/// With no backing chosen the assembled filesystem is a sandbox, on which a
/// memory limiter can be set; with the embedder's filesystem chosen it is
/// that one, on which the limiter is refused.
pub proof fn default_backing_rule(v: WasiEnvBuilderView, fs: WasiFs)
    requires
        assembled_fs(fs, v),
    ensures
        v.fs is None ==> fs.root is Sandbox,
        v.fs matches Some(WasiFsRoot::Backing(b)) ==> fs.root == WasiFsRoot::Backing(b),
{
}

/// Normalizing an outcome twice gives what normalizing it once gives: the
/// worker and the caller that receives its result agree on the exit code.
pub proof fn normalization_is_idempotent(result: Result<(), WasiRuntimeError>)
    ensures
        normalized(normalized(result).0).0 == normalized(result).0,
        normalized(result).0 is Err ==> normalized(normalized(result).0).1 == normalized(result).1,
{
}

/// Resuming a suspended run decides exactly what starting a fresh run from
/// its captured continuation decides: the continuation is handed to the
/// replay untouched, with its width flag, and every later event brings the
/// same suspensions and the same final result.
pub proof fn resume_is_fresh_replay(s: DeepSleepRun, payload: Vec<u8>, events: Seq<Event>)
    requires
        s.wf(),
        s.phase == Phase::Suspended,
    ensures
        s.spec_step(Event::Triggered(payload)) == DeepSleepRun::spec_start(
            Some((s.pending.unwrap(), payload)),
        ),
        s.spec_step(Event::Triggered(payload)).1 matches Action::Replay { rewind, result } && rewind
            == s.pending.unwrap() && rewind.is_64bit == s.pending.unwrap().is_64bit && result
            == payload,
        run_actions(s.spec_step(Event::Triggered(payload)).0, events) == run_actions(
            DeepSleepRun::spec_start(Some((s.pending.unwrap(), payload))).0,
            events,
        ),
{
}

/// Two runs whose events arrive interleaved each decide exactly what they
/// would decide alone: neither sees the other's continuation.
pub proof fn interleaving_is_invisible(
    s1: DeepSleepRun,
    s2: DeepSleepRun,
    schedule: Seq<(bool, Event)>,
)
    ensures
        interleaved_actions(s1, s2, schedule) == (
            run_actions(s1, events_for(schedule, true)),
            run_actions(s2, events_for(schedule, false)),
        ),
    decreases schedule.len(),
{
    if schedule.len() > 0 {
        let (first, ev) = schedule[0];
        let rest = schedule.drop_first();
        let e1 = events_for(schedule, true);
        let e2 = events_for(schedule, false);
        if first {
            assert(e1 == seq![ev] + events_for(rest, true));
            assert(e2 == events_for(rest, false));
            assert(e1[0] == ev);
            assert(e1.drop_first() =~= events_for(rest, true));
            if s1.spec_accepts(ev) {
                let (next, a) = s1.spec_step(ev);
                interleaving_is_invisible(next, s2, rest);
            } else {
                interleaving_is_invisible(s1, s2, rest);
            }
        } else {
            assert(e2 == seq![ev] + events_for(rest, false));
            assert(e1 == events_for(rest, true));
            assert(e2[0] == ev);
            assert(e2.drop_first() =~= events_for(rest, false));
            if s2.spec_accepts(ev) {
                let (next, a) = s2.spec_step(ev);
                interleaving_is_invisible(s1, next, rest);
            } else {
                interleaving_is_invisible(s1, s2, rest);
            }
        }
    }
}

/// A run that has delivered its result takes no further event.
proof fn done_run_is_silent(s: DeepSleepRun, events: Seq<Event>)
    requires
        s.phase == Phase::Done,
    ensures
        run_actions(s, events).len() == 0,
    decreases events.len(),
{
    if events.len() > 0 {
        done_run_is_silent(s, events.drop_first());
    }
}

/// A run delivers its final result at most once, and nothing follows it:
/// the caller waits for exactly one message.
pub proof fn finish_is_last(s: DeepSleepRun, events: Seq<Event>, k: int)
    requires
        0 <= k < run_actions(s, events).len(),
        run_actions(s, events)[k] is Finish,
    ensures
        k == run_actions(s, events).len() - 1,
    decreases events.len(),
{
    if s.spec_accepts(events[0]) {
        let (next, a) = s.spec_step(events[0]);
        assert(run_actions(s, events) == seq![a] + run_actions(next, events.drop_first()));
        if k == 0 {
            assert(a is Finish);
            assert(next.phase == Phase::Done);
            done_run_is_silent(next, events.drop_first());
        } else {
            assert(run_actions(s, events)[k] == run_actions(next, events.drop_first())[k - 1]);
            finish_is_last(next, events.drop_first(), k - 1);
        }
    } else {
        finish_is_last(s, events.drop_first(), k);
    }
}

} // verus!
