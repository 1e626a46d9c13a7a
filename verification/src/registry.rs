//! One-shot registration of the adapter as the process-wide active
//! platform, and the narrow error taxonomy of initialization.
//!
//! At most one platform may be active per process. Rather than implicit
//! global state, the invariant is enforced by an explicit guard: the first
//! installation succeeds, every later one fails with the same error, and
//! there is no teardown path.

use vstd::prelude::*;

verus! {

/// Why initialization can fail.
#[derive(Clone, Copy, PartialEq, Eq, Structural, Debug)]
pub enum PlatformError {
    /// A platform is already registered in this process. The singleton
    /// invariant cannot be repaired, so callers treat this as fatal.
    AlreadyInitialized,
    /// The rendering engine refused to allocate a window adapter. Recoverable:
    /// the application may degrade instead of crashing.
    WindowCreationFailed,
}

/// What an installation attempt returns when the guard is already in state
/// `installed`: success exactly on the first attempt.
pub open spec fn install_result(installed: bool) -> Result<(), PlatformError> {
    if installed {
        Err(PlatformError::AlreadyInitialized)
    } else {
        Ok(())
    }
}

/// The one-shot guard recording whether a platform has been registered in
/// this process.
pub struct PlatformRegistry {
    pub installed: bool,
}

impl PlatformRegistry {
    /// A process starts with no platform registered.
    pub fn new() -> (r: PlatformRegistry)
        ensures
            !r.installed,
    {
        PlatformRegistry { installed: false }
    }

    /// Attempt to register the platform: succeeds exactly when none was
    /// registered before, and leaves the guard registered either way, so
    /// every later attempt fails with `AlreadyInitialized`.
    pub fn install(&mut self) -> (r: Result<(), PlatformError>)
        ensures
            r == install_result(old(self).installed),
            final(self).installed,
    {
        if self.installed {
            Err(PlatformError::AlreadyInitialized)
        } else {
            self.installed = true;
            Ok(())
        }
    }
}

/// Surfacing the engine's answer to a window-adapter request: a refusal
/// becomes the recoverable `WindowCreationFailed`, an allocation succeeds.
pub fn create_window_result(engine_allocated: bool) -> (r: Result<(), PlatformError>)
    ensures
        engine_allocated <==> r is Ok,
        !engine_allocated ==> r == Err::<(), PlatformError>(PlatformError::WindowCreationFailed),
{
    if engine_allocated {
        Ok(())
    } else {
        Err(PlatformError::WindowCreationFailed)
    }
}

/// Singleton enforcement: starting from a fresh process, the first
/// installation succeeds and the second fails, deterministically. The
/// guard's contract says an install leaves it registered, so the second
/// attempt always sees a registered guard.
pub proof fn lemma_singleton_enforcement()
    ensures
        install_result(false) is Ok,
        install_result(true) == Err::<(), PlatformError>(PlatformError::AlreadyInitialized),
{
}

} // verus!
