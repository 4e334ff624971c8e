use vstd::prelude::*;
use crate::capabilities::ControlPlaneError;

verus! {

/// Errors raised by the filesystem collaborator.
#[derive(Debug, Clone, Copy, PartialEq, Eq, Structural)]
pub enum FsError {
    /// The request does not apply to the object it was made on.
    BadRequest,
    /// A descriptor that the filesystem does not hold.
    InvalidFd,
}

/// Errors that stop an environment from being assembled.
#[derive(Debug, Clone, PartialEq, Eq)]
pub enum WasiStateCreationError {
    EnvironmentVariableFormatError(String),
    ArgumentContainsNulByte(String),
    PreopenedDirectoryNotFound(String),
    PreopenedDirectoryError(String),
    MappedDirAliasFormattingError(String),
    WasiFsCreationError(String),
    WasiFsSetupError(String),
    FileSystemError(FsError),
    WasiInheritError(String),
    WasiIncludePackageError(String),
    ControlPlane(ControlPlaneError),
}

/// What a guest signals to the host by failing.
#[derive(Debug, Clone, Copy, PartialEq, Eq, Structural)]
pub enum WasiError {
    /// The guest asked to exit with this code.
    Exit(u16),
    /// The guest targets a WASI version that is not supported.
    UnknownWasiVersion,
}

/// Errors of a guest execution, from assembly to the last instruction.
#[derive(Debug, Clone, PartialEq, Eq)]
pub enum WasiRuntimeError {
    Init(WasiStateCreationError),
    Wasi(WasiError),
    ControlPlane(ControlPlaneError),
    /// The module lacks an export that the run needs.
    Export(String),
    /// The guest trapped.
    Runtime(String),
}

impl WasiRuntimeError {
    /// The exit code that the error carries, if it is an explicit exit.
    pub open spec fn spec_exit_code(&self) -> Option<u16> {
        match self {
            WasiRuntimeError::Wasi(WasiError::Exit(code)) => Some(*code),
            _ => None,
        }
    }

    pub fn as_exit_code(&self) -> (r: Option<u16>)
        ensures
            r == self.spec_exit_code(),
    {
        match self {
            WasiRuntimeError::Wasi(WasiError::Exit(code)) => Some(*code),
            _ => None,
        }
    }
}

} // verus!
