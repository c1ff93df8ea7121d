//! Wire-shape data model: registration status, registration result,
//! notification events and the watch acknowledgment.

use vstd::prelude::*;

verus! {

/// Permission state of the notification capability, as reported by the
/// pre-existing permission component.  The bridge re-uses the value and
/// neither computes nor persists it.
#[derive(Clone, Copy, Debug, PartialEq, Eq, Structural)]
pub enum PermissionState {
    Granted,
    Denied,
    Prompt,
    PromptWithRationale,
}

/// Result of a registration status query: whether the native subsystem is
/// registered for push delivery, and the current push token if one exists.
#[derive(Clone, Debug, PartialEq, Eq)]
pub struct NotificationRegistrationStatus {
    pub is_registered: bool,
    pub token: Option<String>,
}

impl NotificationRegistrationStatus {
    /// Well-formed per the wire contract: a token is present exactly when
    /// the subsystem is registered.
    pub open spec fn wf(self) -> bool {
        self.is_registered <==> self.token is Some
    }
}

/// Outcome of a registration attempt.  Exactly one of `token` / `error` is
/// meaningful: success carries no error, failure carries no token.  The
/// native layer is trusted to uphold this; the bridge does not re-validate.
#[derive(Clone, Debug, PartialEq, Eq)]
pub struct NotificationRegistrationResult {
    pub success: bool,
    pub token: Option<String>,
    pub error: Option<String>,
}

impl NotificationRegistrationResult {
    /// The invariant the native layer upholds: success implies no error,
    /// failure implies no token.
    pub open spec fn consistent(self) -> bool {
        &&& self.success ==> self.error is None
        &&& !self.success ==> self.token is None
    }
}

/// The four kinds of notification event the native layer can push.
#[derive(Clone, Copy, Debug, PartialEq, Eq, Structural)]
pub enum NotificationEventType {
    BackgroundTap,
    ForegroundTap,
    ForegroundDelivery,
    BackgroundDelivery,
}

/// One pushed notification event: its kind plus an opaque string-keyed
/// payload.  Each event is an independent, immutable message.
#[derive(Clone, Debug, PartialEq, Eq)]
pub struct NotificationEvent {
    pub type_: NotificationEventType,
    pub payload: Vec<(String, String)>,
}

/// Acknowledgment that a channel was registered with the native layer.  It
/// says nothing about whether any event will ever be delivered.
#[derive(Clone, Copy, Debug, PartialEq, Eq, Structural)]
pub struct WatchNotificationResult {
    pub success: bool,
}

} // verus!
