//! Event-channel bridging and command dispatch for a push-notification plugin.
//!
//! The crate models the core of a bridge between an application layer and a
//! native push-notification subsystem: the wire shape of registration
//! queries and results, the completion of one-shot dispatches (including
//! correlation of concurrent requests), per-channel FIFO event delivery, and
//! the startup lifecycle that publishes the single process-wide bridge
//! handle.  The native transport itself lives outside the crate; callers
//! hand each function the native layer's response as a plain value.

use vstd::prelude::*;

pub mod bridge;
pub mod channel;
pub mod commands;
pub mod error;
pub mod lifecycle;
pub mod models;
pub mod wire;

pub use error::Error;
pub use models::NotificationEvent;
pub use models::NotificationEventType;
pub use models::NotificationRegistrationResult;
pub use models::NotificationRegistrationStatus;
pub use models::PermissionState;
pub use models::WatchNotificationResult;
pub use bridge::Notifications;
pub use lifecycle::init;
