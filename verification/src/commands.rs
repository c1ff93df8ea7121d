//! Application-facing commands: thin wrappers that resolve the shared
//! bridge handle from process-wide state, forward arguments unchanged, and
//! propagate every bridge error as-is — no wrapping, no retry, no
//! recovery.

use vstd::prelude::*;

use crate::bridge::NativeResponse;
use crate::bridge::spec_register_outcome;
use crate::bridge::spec_status_outcome;
use crate::bridge::spec_watch_outcome;
use crate::error::Error;
use crate::lifecycle::PluginRuntime;
use crate::models::NotificationRegistrationResult;
use crate::models::NotificationRegistrationStatus;
use crate::models::WatchNotificationResult;

verus! {

/// The `checkRegistrationStatus` command: fails with a state error where
/// no handle was ever published, and otherwise completes the dispatch
/// exactly as the bridge handle does.
pub fn check_registration_status(runtime: &PluginRuntime, response: &NativeResponse) -> (r: Result<
    NotificationRegistrationStatus,
    Error,
>)
    ensures
        runtime.bridge is None ==> r == Err::<NotificationRegistrationStatus, Error>(Error::State),
        runtime.bridge is Some ==> spec_status_outcome(*response, r),
{
    match runtime.notifications() {
        Ok(handle) => handle.check_registration_status(response),
        Err(e) => Err(e),
    }
}

/// The `registerForRemoteNotifications` command: state error without a
/// published handle, the bridge handle's completion otherwise.
pub fn register_for_remote_notifications(
    runtime: &PluginRuntime,
    response: &NativeResponse,
) -> (r: Result<NotificationRegistrationResult, Error>)
    ensures
        runtime.bridge is None ==> r == Err::<NotificationRegistrationResult, Error>(Error::State),
        runtime.bridge is Some ==> spec_register_outcome(*response, r),
{
    match runtime.notifications() {
        Ok(handle) => handle.register_for_remote_notifications(response),
        Err(e) => Err(e),
    }
}

/// The `watchNotifications` command: state error without a published
/// handle, the bridge handle's completion otherwise.  The caller's channel
/// travels with the dispatch arguments; its later liveness is never
/// validated here — a channel that closes after registration only makes
/// native delivery attempts fail silently, never this command.
pub fn watch_notifications(runtime: &PluginRuntime, response: &NativeResponse) -> (r: Result<
    WatchNotificationResult,
    Error,
>)
    ensures
        runtime.bridge is None ==> r == Err::<WatchNotificationResult, Error>(Error::State),
        runtime.bridge is Some ==> spec_watch_outcome(*response, r),
{
    match runtime.notifications() {
        Ok(handle) => handle.watch_notifications(response),
        Err(e) => Err(e),
    }
}

} // verus!
