use vstd::prelude::*;

use crate::errors::RunError;

verus! {

/// The phases of the process-wide engine singleton, in the order they are
/// reached: the platform is registered and the engine initialized exactly
/// once, and disposed exactly once, after every isolate is gone.
#[derive(Clone, Copy, Debug, PartialEq, Eq, Structural)]
pub enum EnginePhase {
    Uninitialized,
    Initialized,
    Disposed,
}

/// The process-wide initialization flag of the engine, made explicit: the
/// embedding asks this tracker before it touches the engine, so that a second
/// initialization or a use after disposal — undefined in the engine itself —
/// is refused by the host instead.
pub struct EngineLifecycle {
    pub phase: EnginePhase,
}

impl EngineLifecycle {
    /// A fresh process has an uninitialized engine.
    pub fn new() -> (tracker: EngineLifecycle)
        ensures
            tracker.phase == EnginePhase::Uninitialized,
    {
        EngineLifecycle { phase: EnginePhase::Uninitialized }
    }

    /// Isolates may exist only while the engine is initialized.
    pub open spec fn may_create_isolate(self) -> bool {
        self.phase == EnginePhase::Initialized
    }

    /// Grants the one initialization of the engine: it succeeds exactly on a
    /// process that never initialized it, and a second request is refused as
    /// a lifecycle violation, leaving the tracker unchanged.
    pub fn initialize(&mut self) -> (r: Result<(), RunError>)
        ensures
            r is Ok <==> old(self).phase == EnginePhase::Uninitialized,
            r is Ok ==> final(self).phase == EnginePhase::Initialized,
            r is Err ==> *final(self) == *old(self) && r == Err::<(), RunError>(
                RunError::EngineLifecycleError,
            ),
    {
        match self.phase {
            EnginePhase::Uninitialized => {
                self.phase = EnginePhase::Initialized;
                Ok(())
            },
            _ => Err(RunError::EngineLifecycleError),
        }
    }

    /// Grants the one disposal of the engine: it succeeds exactly on an
    /// initialized engine, after which no isolate may be created; disposing
    /// an uninitialized or already-disposed engine is refused as a lifecycle
    /// violation, leaving the tracker unchanged.
    pub fn dispose(&mut self) -> (r: Result<(), RunError>)
        ensures
            r is Ok <==> old(self).phase == EnginePhase::Initialized,
            r is Ok ==> final(self).phase == EnginePhase::Disposed,
            r is Err ==> *final(self) == *old(self) && r == Err::<(), RunError>(
                RunError::EngineLifecycleError,
            ),
            !final(self).may_create_isolate(),
    {
        match self.phase {
            EnginePhase::Initialized => {
                self.phase = EnginePhase::Disposed;
                Ok(())
            },
            _ => Err(RunError::EngineLifecycleError),
        }
    }
}

} // verus!
