//! The canonical exit code of a guest run.
use vstd::prelude::*;
use wasmer::FromToNativeWasmType;
use wasmer_wasix_types::wasi::{Errno, ExitCode};
use crate::error::WasiRuntimeError;

verus! {

/// The number of the "executable file format error" errno.
pub const NOEXEC: u16 = 45;

/// Relies on `ExitCode::from(Errno::Success)` of wasmer-wasix-types: an errno's
/// exit code is its number modulo 256, and `Success` is number 0.
#[verifier::external_body]
pub(crate) fn success_exit_code() -> (r: u16)
    ensures
        r == 0,
{
    ExitCode::from(Errno::Success).raw() as u16
}

/// Relies on `ExitCode::from(Errno::Noexec)` of wasmer-wasix-types: an errno's
/// exit code is its number modulo 256, and `Noexec` is number 45.
#[verifier::external_body]
pub(crate) fn noexec_exit_code() -> (r: u16)
    ensures
        r == NOEXEC,
{
    ExitCode::from(Errno::Noexec).raw() as u16
}

/// Relies on `ExitCode::from(u16)` and `ExitCode::is_success` of
/// wasmer-wasix-types: the code is kept as given, and only 0 is success.
#[verifier::external_body]
pub(crate) fn exit_code_is_success(code: u16) -> (r: bool)
    ensures
        r == (code == 0),
{
    ExitCode::from(code).is_success()
}

/// Relies on `ExitCode::from(i32)` and `ExitCode::raw` of wasmer-wasix-types:
/// the exit code of an errno number is that number modulo 256.
#[verifier::external_body]
pub(crate) fn errno_exit_code(errno: u16) -> (r: u16)
    ensures
        r == errno % 256,
{
    ExitCode::from(errno as i32).raw() as u16
}

/// Relies on `Errno::from_native` of wasmer-wasix-types: only the number 0
/// decodes to `Errno::Success`.
#[verifier::external_body]
pub(crate) fn errno_is_success(errno: u16) -> (r: bool)
    ensures
        r == (errno == 0),
{
    Errno::from_native(errno as i32) == Errno::Success
}

/// The result and exit code that a run's outcome normalizes to. An explicit
/// exit with code 0 is a success; any other explicit exit keeps its code and
/// stays an error; any other error is "not executable".
pub open spec fn normalized(result: Result<(), WasiRuntimeError>) -> (Result<(), WasiRuntimeError>, u16) {
    match result {
        Ok(()) => (Ok(()), 0),
        Err(e) => match e.spec_exit_code() {
            Some(code) => if code == 0 {
                (Ok(()), 0)
            } else {
                (Err(e), code)
            },
            None => (Err(e), NOEXEC),
        },
    }
}

/// Derives the exit code of a run, and turns an explicit exit with a success
/// code into a success.
pub fn wasi_exit_code(result: Result<(), WasiRuntimeError>) -> (r: (Result<(), WasiRuntimeError>, u16))
    ensures
        r == normalized(result),
{
    match result {
        Ok(()) => (Ok(()), success_exit_code()),
        Err(e) => match e.as_exit_code() {
            Some(code) => {
                if exit_code_is_success(code) {
                    (Ok(()), success_exit_code())
                } else {
                    (Err(e), code)
                }
            },
            None => (Err(e), noexec_exit_code()),
        },
    }
}

} // verus!
