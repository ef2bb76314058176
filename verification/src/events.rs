//! The events the engine broadcasts when an operation completes.
//!
//! Each event is a one-shot notice to whoever registered for it; there is
//! no replay for late subscribers. The registration and dispatch machinery
//! lives with the caller — here stand the event data itself and the
//! interface an observer implements.

use vstd::prelude::*;
use crate::status::{CampusNetworkStatus, WanStatus};

verus! {

/// A completed operation, announced to observers.
#[derive(Debug, Clone)]
pub enum AppEvent {
    /// A status check finished.
    NetworkStatusChecked {
        /// The campus status it found.
        campus_status: CampusNetworkStatus,
        /// The wide-area status it found.
        wan_status: WanStatus,
        /// The composed interface text.
        message: String,
    },
    /// A login attempt finished.
    LoginAttempted {
        /// Whether it succeeded.
        success: bool,
        /// The composed interface text.
        message: String,
        /// Elapsed time, in hundredths of a second.
        elapsed_centis: u64,
    },
    /// The configuration was loaded.
    ConfigLoaded {
        /// Whether loading succeeded.
        success: bool,
        /// The outcome's text.
        message: String,
    },
    /// The configuration was saved.
    ConfigSaved {
        /// Whether saving succeeded.
        success: bool,
        /// The outcome's text.
        message: String,
    },
    /// The start-with-machine registration was changed.
    AutoStartSet {
        /// The requested setting.
        enabled: bool,
        /// Whether applying it succeeded.
        success: bool,
        /// The outcome's text.
        message: String,
    },
    /// A notification was shown.
    NotificationShown {
        /// The notification's title.
        title: String,
        /// The notification's text.
        message: String,
    },
}

/// What an observer of the engine implements. Handling is side-effect
/// only; the engine promises nothing about what a handler does.
pub trait EventHandler {
    /// Take note of one completed operation.
    fn handle_event(&self, event: &AppEvent);
}

} // verus!
