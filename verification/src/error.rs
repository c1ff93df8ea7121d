//! Error taxonomy of the bridge.  All three kinds propagate unchanged to
//! the immediate caller; there is no local recovery or retry.

use vstd::prelude::*;

verus! {

/// The errors a command invocation or plugin startup can surface.
#[derive(Clone, Debug, PartialEq, Eq)]
pub enum Error {
    /// Native dispatch failed: handler missing, a native-side exception, or
    /// a response that could not be parsed.  Carries a diagnostic message.
    Bridge(String),
    /// The bridge handle was not found in process-wide state at call time;
    /// indicates a startup-ordering defect, not a runtime condition.
    State,
    /// Startup-time native initialization failed; fatal to plugin startup.
    Setup(String),
}

impl Error {
    /// A human-readable description of the error.
    pub fn message(&self) -> (r: String)
        ensures
            self matches Error::Bridge(m) ==> r@ == m@,
            self matches Error::Setup(m) ==> r@ == m@,
            *self is State ==> r@ == "push notification bridge not initialized"@,
    {
        match self {
            Error::Bridge(m) => m.clone(),
            Error::State => "push notification bridge not initialized".to_owned(),
            Error::Setup(m) => m.clone(),
        }
    }
}

} // verus!
