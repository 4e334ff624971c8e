//! Assembly and validation of a sandboxed guest environment, and the
//! deep-sleep protocol that suspends and resumes a running guest.

pub mod builder;
pub mod capabilities;
pub mod deep_sleep;
pub mod driver;
pub mod env;
pub mod error;
pub mod exit;
pub mod fs;
pub mod laws;
pub mod preopen;
pub mod text;
pub mod validate;

pub use builder::WasiEnvBuilder;
pub use capabilities::{Capabilities, ThreadingCapabilities};
pub use deep_sleep::{Action, CallOutcome, DeepSleepRun, Event, Phase, RewindState};
pub use env::{BinaryPackage, RuntimeHandle, WasiEnv, WasiEnvInit};
pub use error::{FsError, WasiError, WasiRuntimeError, WasiStateCreationError};
pub use exit::wasi_exit_code;
pub use fs::{BackingFs, MemoryLimiter, TmpFileSystem, VirtualFile, WasiFs, WasiFsRoot};
pub use preopen::{PreopenDirBuilder, PreopenedDir};
