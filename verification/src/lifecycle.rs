//! Startup lifecycle: the bridge handle is constructed once from the
//! outcome of the one-time native initialization call and published into
//! process-wide state, where every later command invocation resolves it
//! read-only.  A failed initialization is fatal: nothing is published, and
//! the process never reaches a degraded ready state.

use vstd::prelude::*;

use crate::bridge::Notifications;
use crate::error::Error;

verus! {

/// Builds the bridge handle at plugin startup.  The platform resolves the
/// native subsystem and performs its one initialization call; its outcome
/// arrives here.  Failure aborts startup with a setup error carrying the
/// native diagnostic; success yields the handle to publish.
pub fn init(native_init: Result<(), String>) -> (r: Result<Notifications, Error>)
    ensures
        native_init matches Err(m) ==> r == Err::<Notifications, Error>(Error::Setup(m)),
        native_init is Ok ==> r == Ok::<Notifications, Error>(Notifications {  }),
{
    match native_init {
        Ok(()) => Ok(Notifications {  }),
        Err(m) => Err(Error::Setup(m)),
    }
}

/// Process-wide plugin state: the published bridge handle, if startup ever
/// reached publication.  There is no reinitialization and no teardown; the
/// state is written once at startup and read for the process lifetime.
#[derive(Debug)]
pub struct PluginRuntime {
    pub bridge: Option<Notifications>,
}

impl PluginRuntime {
    /// Before startup nothing is published.
    pub fn new() -> (r: PluginRuntime)
        ensures
            r.bridge is None,
    {
        PluginRuntime { bridge: None }
    }

    /// Startup publication: builds the handle from the native
    /// initialization outcome and publishes it exactly once.  On failure
    /// the setup error is surfaced and no handle is published, so every
    /// later command fails with a state error rather than a bridge error.
    pub fn setup(&mut self, native_init: Result<(), String>) -> (r: Result<(), Error>)
        requires
            old(self).bridge is None,
        ensures
            native_init matches Err(m) ==> r == Err::<(), Error>(Error::Setup(m))
                && final(self).bridge is None,
            native_init is Ok ==> r is Ok && final(self).bridge == Some(Notifications {  }),
    {
        match init(native_init) {
            Ok(handle) => {
                self.bridge = Some(handle);
                Ok(())
            },
            Err(e) => Err(e),
        }
    }

    /// Resolves the shared bridge handle, as every command invocation
    /// does.  Fails with a state error exactly when startup never
    /// published a handle.
    pub fn notifications(&self) -> (r: Result<&Notifications, Error>)
        ensures
            self.bridge matches Some(b) ==> r matches Ok(h) && *h == b,
            self.bridge is None ==> r == Err::<&Notifications, Error>(Error::State),
    {
        match &self.bridge {
            Some(h) => Ok(h),
            None => Err(Error::State),
        }
    }
}

} // verus!
