//! The assembled environment that a guest runs in.
use vstd::prelude::*;
use crate::capabilities::{Capabilities, ControlPlaneError, WasiControlPlane};
use crate::fs::WasiFs;

verus! {

/// The runtime that executes the guest.
#[derive(Debug, Clone, Copy, PartialEq, Eq, Structural)]
pub enum RuntimeHandle {
    /// The process-wide runtime, created once and shared by every
    /// environment that names no other.
    SharedDefault,
    /// A runtime of the embedder, known here by its handle.
    Custom(u64),
}

/// A dependency package whose files and commands the guest inherits.
#[derive(Debug, Clone, PartialEq, Eq)]
pub struct BinaryPackage {
    pub id: String,
}

impl View for BinaryPackage {
    type V = Seq<char>;

    open spec fn view(&self) -> Seq<char> {
        self.id@
    }
}

/// The process-wide state of one guest.
#[derive(Debug)]
pub struct WasiState {
    pub fs: WasiFs,
    /// Fresh random bytes that key internal lookups; never shared.
    pub secret: [u8; 32],
    pub args: Vec<String>,
    pub preopen: Vec<String>,
    /// Keys of the futexes in use.
    pub futexs: Vec<u64>,
    pub clock_offset: i64,
    /// The environment, one `key=value` byte string per variable.
    pub envs: Vec<Vec<u8>>,
}

/// Everything an environment is made from, as the builder assembled it.
#[derive(Debug)]
pub struct WasiEnvInit {
    pub state: WasiState,
    pub runtime: RuntimeHandle,
    pub webc_dependencies: Vec<BinaryPackage>,
    pub mapped_commands: Vec<(String, String)>,
    pub control_plane: WasiControlPlane,
    pub capabilities: Capabilities,
    pub call_initialize: bool,
    pub can_deep_sleep: bool,
}

/// A live environment: the assembled parts, the main thread's status and
/// the exit code that teardown recorded.
#[derive(Debug)]
pub struct WasiEnv {
    pub init: WasiEnvInit,
    pub running: bool,
    pub cleaned_up: bool,
    pub exit_code: Option<u16>,
}

impl WasiEnv {
    /// Brings an assembled environment to life by registering its main
    /// thread with the scheduling control.
    pub fn from_init(init: WasiEnvInit) -> (r: Result<WasiEnv, ControlPlaneError>)
        ensures
            r is Ok <==> init.control_plane.has_room(),
            r matches Err(e) ==> e == (ControlPlaneError::TaskLimitReached {
                max: init.control_plane.limit(),
            }),
            r matches Ok(env) ==> {
                &&& env.init.control_plane.task_count == init.control_plane.task_count + 1
                &&& env.init.control_plane.config == init.control_plane.config
                &&& env.init.state == init.state
                &&& env.init.runtime == init.runtime
                &&& env.init.webc_dependencies == init.webc_dependencies
                &&& env.init.mapped_commands == init.mapped_commands
                &&& env.init.capabilities == init.capabilities
                &&& env.init.call_initialize == init.call_initialize
                &&& env.init.can_deep_sleep == init.can_deep_sleep
                &&& !env.running && !env.cleaned_up && env.exit_code is None
            },
    {
        let mut init = init;
        match init.control_plane.register_task() {
            Ok(()) => Ok(WasiEnv { init, running: false, cleaned_up: false, exit_code: None }),
            Err(e) => Err(e),
        }
    }

    /// Marks the main thread as running.
    pub fn set_status_running(&mut self)
        ensures
            *final(self) == (WasiEnv { running: true, ..*old(self) }),
    {
        self.running = true;
    }

    /// Tears the environment down, recording the exit code if there is one.
    /// It happens once.
    pub fn cleanup(&mut self, exit_code: Option<u16>)
        requires
            !old(self).cleaned_up,
        ensures
            *final(self) == (WasiEnv {
                running: false,
                cleaned_up: true,
                exit_code: exit_code,
                ..*old(self)
            }),
    {
        self.running = false;
        self.cleaned_up = true;
        self.exit_code = exit_code;
    }
}

} // verus!
