//! The decisions of the execution drivers that surround a guest call.
use vstd::prelude::*;
use crate::capabilities::Capabilities;
use crate::deep_sleep::Action;
use crate::env::WasiEnv;
use crate::error::WasiRuntimeError;
use crate::exit::{normalized, wasi_exit_code};

verus! {

/// The asynchronous worker ended without delivering a result: it panicked.
#[derive(Debug, Clone, Copy, PartialEq, Eq, Structural)]
pub struct WorkerLost;

/// Whether the synchronous driver should warn that it runs a guest whose
/// threads are asynchronous, which is likely to fail spuriously.
pub fn warns_on_sync_run(caps: &Capabilities) -> (r: bool)
    ensures
        r == caps.threading.enable_asynchronous_threading,
{
    caps.threading.enable_asynchronous_threading
}

/// Ends a synchronous run: normalizes the outcome, tears the environment
/// down with the exit code, and returns the normalized result.
pub fn complete_sync_run(env: &mut WasiEnv, outcome: Result<(), WasiRuntimeError>) -> (r: Result<
    (),
    WasiRuntimeError,
>)
    requires
        !old(env).cleaned_up,
    ensures
        r == normalized(outcome).0,
        *final(env) == (WasiEnv {
            running: false,
            cleaned_up: true,
            exit_code: Some(normalized(outcome).1),
            ..*old(env)
        }),
{
    let (result, exit_code) = wasi_exit_code(outcome);
    env.cleanup(Some(exit_code));
    result
}

/// Carries out a final decision of the deep-sleep controller: tears the
/// environment down with its exit code and hands back the result to deliver.
/// Other decisions are not final, and leave the environment alone.
pub fn perform_finish(env: &mut WasiEnv, action: Action) -> (r: Option<Result<(), WasiRuntimeError>>)
    requires
        !old(env).cleaned_up,
    ensures
        match action {
            Action::Finish { result, exit_code } => r == Some(result) && *final(env) == (WasiEnv {
                running: false,
                cleaned_up: true,
                exit_code,
                ..*old(env)
            }),
            _ => r is None && *final(env) == *old(env),
        },
{
    match action {
        Action::Finish { result, exit_code } => {
            env.cleanup(exit_code);
            Some(result)
        },
        _ => None,
    }
}

/// What the caller of an asynchronous run makes of the one message it
/// waits for: the normalized result, or, when the worker ended without
/// sending one, a fault that is told apart from any delivered error.
pub fn receive_async_result(received: Option<Result<(), WasiRuntimeError>>) -> (r: Result<
    (Result<(), WasiRuntimeError>, u16),
    WorkerLost,
>)
    ensures
        match received {
            Some(result) => r == Ok::<_, WorkerLost>(normalized(result)),
            None => r == Err::<(Result<(), WasiRuntimeError>, u16), _>(WorkerLost),
        },
{
    match received {
        Some(result) => Ok(wasi_exit_code(result)),
        None => Err(WorkerLost),
    }
}

} // verus!
