//! Capability limits, and the scheduling control that is sized from them.
use vstd::prelude::*;

verus! {

/// Limits on the guest's threads.
#[derive(Debug, Clone, Copy, PartialEq, Eq, Structural)]
pub struct ThreadingCapabilities {
    /// How many tasks may run at once; `None` sets no limit.
    pub max_threads: Option<usize>,
    /// Whether threads may be scheduled asynchronously.
    pub enable_asynchronous_threading: bool,
}

/// What the guest is allowed to use.
#[derive(Debug, Clone, Copy, PartialEq, Eq, Structural)]
pub struct Capabilities {
    pub threading: ThreadingCapabilities,
}

impl Capabilities {
    /// No thread limit, synchronous threading.
    pub fn new() -> (r: Self)
        ensures
            r == Capabilities::spec_new(),
    {
        Capabilities {
            threading: ThreadingCapabilities {
                max_threads: None,
                enable_asynchronous_threading: false,
            },
        }
    }

    pub open spec fn spec_new() -> Self {
        Capabilities {
            threading: ThreadingCapabilities {
                max_threads: None,
                enable_asynchronous_threading: false,
            },
        }
    }
}

/// How the scheduling control is sized.
#[derive(Debug, Clone, Copy, PartialEq, Eq, Structural)]
pub struct ControlPlaneConfig {
    pub max_task_count: Option<usize>,
    pub enable_asynchronous_threading: bool,
}

impl ControlPlaneConfig {
    /// The sizing that a set of capabilities calls for.
    pub open spec fn spec_from_capabilities(c: Capabilities) -> Self {
        ControlPlaneConfig {
            max_task_count: c.threading.max_threads,
            enable_asynchronous_threading: c.threading.enable_asynchronous_threading,
        }
    }

    pub fn from_capabilities(c: &Capabilities) -> (r: Self)
        ensures
            r == Self::spec_from_capabilities(*c),
    {
        ControlPlaneConfig {
            max_task_count: c.threading.max_threads,
            enable_asynchronous_threading: c.threading.enable_asynchronous_threading,
        }
    }
}

#[derive(Debug, Clone, Copy, PartialEq, Eq, Structural)]
pub enum ControlPlaneError {
    /// The task limit was reached.
    TaskLimitReached { max: usize },
}

/// Counts the tasks of one environment against its limit.
#[derive(Debug, Clone, Copy, PartialEq, Eq, Structural)]
pub struct WasiControlPlane {
    pub config: ControlPlaneConfig,
    pub task_count: usize,
}

impl WasiControlPlane {
    /// A control with no task registered.
    pub fn new(config: ControlPlaneConfig) -> (r: Self)
        ensures
            r.config == config,
            r.task_count == 0,
    {
        WasiControlPlane { config, task_count: 0 }
    }

    /// The control that a set of capabilities sizes, with no task yet.
    pub open spec fn spec_fresh(c: Capabilities) -> Self {
        WasiControlPlane { config: ControlPlaneConfig::spec_from_capabilities(c), task_count: 0 }
    }

    /// The most tasks that may be registered at once.
    pub open spec fn limit(self) -> usize {
        match self.config.max_task_count {
            Some(max) => max,
            None => usize::MAX,
        }
    }

    /// Whether one more task fits.
    pub open spec fn has_room(self) -> bool {
        self.task_count < self.limit()
    }

    /// Registers one more task, unless the limit is reached.
    pub fn register_task(&mut self) -> (r: Result<(), ControlPlaneError>)
        ensures
            r is Ok <==> old(self).has_room(),
            r is Ok ==> final(self).task_count == old(self).task_count + 1,
            r matches Err(ControlPlaneError::TaskLimitReached { max }) ==> max == old(
                self,
            ).limit() && *final(self) == *old(self),
            final(self).config == old(self).config,
    {
        match self.config.max_task_count {
            Some(max) => {
                if self.task_count >= max {
                    return Err(ControlPlaneError::TaskLimitReached { max });
                }
            },
            None => {
                if self.task_count == usize::MAX {
                    return Err(ControlPlaneError::TaskLimitReached { max: usize::MAX });
                }
            },
        }
        self.task_count = self.task_count + 1;
        Ok(())
    }
}

} // verus!
