//! The closed set of network states that a probe or login cycle produces,
//! and the message texts that stand for them.

use vstd::prelude::*;
use vstd::string::*;

verus! {

/// State of the campus-network (captive-portal) session.
#[derive(Debug, Clone, Copy, PartialEq, Eq, Structural)]
pub enum CampusNetworkStatus {
    /// The portal already treats this host as logged in.
    AlreadyLoggedIn,
    /// The host is not logged in to the portal.
    NotLoggedIn,
    /// A login attempt in this cycle just succeeded.
    LoginSuccess,
}

/// The message text that stands for each campus status.
pub open spec fn campus_message_spec(s: CampusNetworkStatus) -> Seq<char> {
    match s {
        CampusNetworkStatus::AlreadyLoggedIn => "已登录校园网"@,
        CampusNetworkStatus::NotLoggedIn => "未登录校园网"@,
        CampusNetworkStatus::LoginSuccess => "登录校园网成功！"@,
    }
}

impl CampusNetworkStatus {
    /// The human-readable text for this status.
    pub fn to_message(&self) -> (r: String)
        ensures
            r@ == campus_message_spec(*self),
    {
        match self {
            CampusNetworkStatus::AlreadyLoggedIn => String::from_str("已登录校园网"),
            CampusNetworkStatus::NotLoggedIn => String::from_str("未登录校园网"),
            CampusNetworkStatus::LoginSuccess => String::from_str("登录校园网成功！"),
        }
    }
}

/// Wide-area (general internet) reachability as the race probe reports it.
#[derive(Debug, Clone, Copy, PartialEq, Eq, Structural)]
pub enum WanStatus {
    /// At least one external host answered and was not a rewritten portal page.
    Connected,
    /// No external host was reachable.
    Disconnected,
    /// The check was skipped or could not be carried out.
    CheckFailed,
}

/// The message text that stands for each wide-area status.
pub open spec fn wan_message_spec(s: WanStatus) -> Seq<char> {
    match s {
        WanStatus::Connected => "已接入广域网"@,
        WanStatus::Disconnected => "无法访问广域网"@,
        WanStatus::CheckFailed => "广域网检查失败"@,
    }
}

impl WanStatus {
    /// The human-readable text for this status.
    pub fn to_message(&self) -> (r: String)
        ensures
            r@ == wan_message_spec(*self),
    {
        match self {
            WanStatus::Connected => String::from_str("已接入广域网"),
            WanStatus::Disconnected => String::from_str("无法访问广域网"),
            WanStatus::CheckFailed => String::from_str("广域网检查失败"),
        }
    }
}

/// The three composed texts of one probe or login cycle: one for the system
/// notification, one for the user interface, one for the log line.
#[derive(Debug, Clone)]
pub struct MessageResult {
    /// Text for the system notification.
    pub notify_message: String,
    /// Text for the user interface.
    pub gui_message: String,
    /// Text for the log line; it never holds a newline.
    pub log_message: String,
}

} // verus!
