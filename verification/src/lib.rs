//! Verified core of a campus-network auto-login tool.
//!
//! The library holds the logic that decides what the tool does: classifying
//! captive-portal responses, aggregating concurrent reachability probes,
//! building the portal's login request, composing user-facing messages from
//! templates, and validating configuration. All network, file and OS work
//! stays outside; callers hand the library plain values and get plain values
//! back.

pub mod classify;
pub mod config;
pub mod dto;
pub mod error;
pub mod events;
pub mod logging;
pub mod login;
pub mod message;
pub mod numfmt;
pub mod service;
pub mod status;
pub mod text;

pub use config::normalize_isp;
pub use dto::GuiConfigDto;
pub use error::AppError;
pub use message::MessageCenter;
pub use service::LoginResult;
