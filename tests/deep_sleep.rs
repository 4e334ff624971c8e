use wasix_env::capabilities::Capabilities;
use wasix_env::deep_sleep::{Action, CallOutcome, DeepSleepRun, Event, Phase, RewindState};
use wasix_env::driver::{complete_sync_run, perform_finish, receive_async_result, warns_on_sync_run, WorkerLost};
use wasix_env::error::{WasiError, WasiRuntimeError};
use wasix_env::{wasi_exit_code, WasiEnvBuilder};

fn rewind(tag: u8, is_64bit: bool) -> RewindState {
    RewindState {
        memory_stack: vec![tag, 1],
        rewind_stack: vec![tag, 2],
        store_data: vec![tag, 3],
        is_64bit,
    }
}

#[test]
fn exit_code_normalization() {
    let (r, code) = wasi_exit_code(Ok(()));
    assert_eq!((r, code), (Ok(()), 0));
    let (r, code) = wasi_exit_code(Err(WasiRuntimeError::Wasi(WasiError::Exit(0))));
    assert_eq!((r, code), (Ok(()), 0));
    let (r, code) = wasi_exit_code(Err(WasiRuntimeError::Wasi(WasiError::Exit(3))));
    assert_eq!((r, code), (Err(WasiRuntimeError::Wasi(WasiError::Exit(3))), 3));
    let (r, code) = wasi_exit_code(Err(WasiRuntimeError::Runtime("trap".to_string())));
    assert_eq!((r, code), (Err(WasiRuntimeError::Runtime("trap".to_string())), 45));
    let (r, code) = wasi_exit_code(Err(WasiRuntimeError::Wasi(WasiError::UnknownWasiVersion)));
    assert_eq!(code, 45);
    assert!(r.is_err());
}

#[test]
fn replay_errno_becomes_an_exit_code_modulo_256() {
    let (run, _) = DeepSleepRun::start(Some((rewind(3, false), vec![1])));
    let (_, action) = run.step(Event::Replayed { errno: 300 });
    match action {
        Action::Finish { result, exit_code } => {
            assert_eq!(result, Err(WasiRuntimeError::Wasi(WasiError::Exit(44))));
            assert_eq!(exit_code, Some(44));
        }
        _ => panic!("expected the end"),
    }
}

#[test]
fn fresh_run_calls_the_entry() {
    let (run, action) = DeepSleepRun::start(None);
    assert_eq!(run.phase, Phase::Running);
    assert!(matches!(action, Action::CallEntry));
    let (run, action) = run.step(Event::EntryReturned(CallOutcome::Returned));
    assert_eq!(run.phase, Phase::Done);
    assert!(matches!(action, Action::Finish { result: Ok(()), exit_code: Some(0) }));
}

#[test]
fn sleep_and_resume_replays_the_continuation() {
    let (run, _) = DeepSleepRun::start(None);
    let (run, action) = run.step(Event::EntryReturned(CallOutcome::DeepSleep(rewind(7, true))));
    assert_eq!(run.phase, Phase::Suspended);
    assert!(matches!(action, Action::AwaitTrigger));
    assert!(!run.accepts(&Event::InstanceUnavailable));
    assert!(run.accepts(&Event::Triggered(vec![])));
    let (run, action) = run.step(Event::Triggered(vec![9, 9]));
    assert_eq!(run.phase, Phase::Rewinding);
    match action {
        Action::Replay { rewind, result } => {
            assert_eq!(rewind.memory_stack, vec![7, 1]);
            assert_eq!(rewind.rewind_stack, vec![7, 2]);
            assert_eq!(rewind.store_data, vec![7, 3]);
            assert!(rewind.is_64bit);
            assert_eq!(result, vec![9, 9]);
        }
        _ => panic!("expected a replay"),
    }
    let (run, action) = run.step(Event::Replayed { errno: 0 });
    assert_eq!(run.phase, Phase::Running);
    assert!(matches!(action, Action::CallEntry));
    let (_, action) = run.step(Event::EntryReturned(CallOutcome::Failed(
        WasiRuntimeError::Wasi(WasiError::Exit(0)),
    )));
    assert!(matches!(action, Action::Finish { result: Ok(()), exit_code: Some(0) }));
}

#[test]
fn resuming_equals_a_fresh_replay_for_both_widths() {
    for is_64bit in [false, true] {
        let (run, _) = DeepSleepRun::start(None);
        let (run, _) = run.step(Event::EntryReturned(CallOutcome::DeepSleep(rewind(1, is_64bit))));
        let (resumed, a1) = run.step(Event::Triggered(vec![4]));
        let (fresh, a2) = DeepSleepRun::start(Some((rewind(1, is_64bit), vec![4])));
        assert_eq!(resumed.phase, fresh.phase);
        match (a1, a2) {
            (
                Action::Replay { rewind: r1, result: first_payload },
                Action::Replay { rewind: r2, result: second_payload },
            ) => {
                assert_eq!(r1.memory_stack, r2.memory_stack);
                assert_eq!(r1.is_64bit, is_64bit);
                assert_eq!(r2.is_64bit, is_64bit);
                assert_eq!(first_payload, second_payload);
            }
            _ => panic!("expected replays"),
        }
    }
}

#[test]
fn failed_replay_finishes_with_its_errno() {
    let (run, _) = DeepSleepRun::start(Some((rewind(2, false), vec![])));
    let (run, action) = run.step(Event::Replayed { errno: 8 });
    assert_eq!(run.phase, Phase::Done);
    match action {
        Action::Finish { result, exit_code } => {
            assert_eq!(result, Err(WasiRuntimeError::Wasi(WasiError::Exit(8))));
            assert_eq!(exit_code, Some(8));
        }
        _ => panic!("expected the end"),
    }
}

#[test]
fn missing_instance_or_entry_is_fatal() {
    let (run, _) = DeepSleepRun::start(None);
    let (_, action) = run.step(Event::InstanceUnavailable);
    match action {
        Action::Finish { result, exit_code } => {
            assert_eq!(result, Err(WasiRuntimeError::Wasi(WasiError::Exit(45))));
            assert_eq!(exit_code, None);
        }
        _ => panic!("expected the end"),
    }
    let (run, _) = DeepSleepRun::start(None);
    let (_, action) = run.step(Event::EntryMissing("_start".to_string()));
    assert!(matches!(
        action,
        Action::Finish { result: Err(WasiRuntimeError::Export(_)), exit_code: None }
    ));
}

#[test]
fn interleaved_runs_keep_their_own_continuations() {
    let (a, _) = DeepSleepRun::start(None);
    let (b, _) = DeepSleepRun::start(None);
    let (a, _) = a.step(Event::EntryReturned(CallOutcome::DeepSleep(rewind(1, false))));
    let (b, _) = b.step(Event::EntryReturned(CallOutcome::DeepSleep(rewind(2, true))));
    let (b, act_b) = b.step(Event::Triggered(vec![20]));
    let (a, act_a) = a.step(Event::Triggered(vec![10]));
    match (act_a, act_b) {
        (
            Action::Replay { rewind: ra, result: pa },
            Action::Replay { rewind: rb, result: pb },
        ) => {
            assert_eq!(ra.memory_stack, vec![1, 1]);
            assert!(!ra.is_64bit);
            assert_eq!(pa, vec![10]);
            assert_eq!(rb.memory_stack, vec![2, 1]);
            assert!(rb.is_64bit);
            assert_eq!(pb, vec![20]);
        }
        _ => panic!("expected replays"),
    }
    assert_eq!(a.phase, Phase::Rewinding);
    assert_eq!(b.phase, Phase::Rewinding);
}

#[test]
fn drivers_tear_down_with_the_exit_code() {
    let mut env = WasiEnvBuilder::new("prog").build().unwrap();
    env.set_status_running();
    assert!(env.running);
    let r = complete_sync_run(&mut env, Err(WasiRuntimeError::Wasi(WasiError::Exit(0))));
    assert_eq!(r, Ok(()));
    assert!(env.cleaned_up && !env.running);
    assert_eq!(env.exit_code, Some(0));

    let mut env = WasiEnvBuilder::new("prog").build().unwrap();
    assert_eq!(perform_finish(&mut env, Action::AwaitTrigger), None);
    assert!(!env.cleaned_up);
    let sent = perform_finish(
        &mut env,
        Action::Finish { result: Err(WasiRuntimeError::Runtime("x".to_string())), exit_code: Some(45) },
    );
    assert_eq!(sent, Some(Err(WasiRuntimeError::Runtime("x".to_string()))));
    assert_eq!(env.exit_code, Some(45));
}

#[test]
fn async_handoff() {
    assert_eq!(receive_async_result(None), Err(WorkerLost));
    assert_eq!(
        receive_async_result(Some(Err(WasiRuntimeError::Wasi(WasiError::Exit(2))))),
        Ok((Err(WasiRuntimeError::Wasi(WasiError::Exit(2))), 2))
    );
    let caps = Capabilities::new();
    assert!(!warns_on_sync_run(&caps));
}
