//! The error taxonomy, and the user-facing texts each error earns.
//!
//! Network failures are classified from their message text into a small
//! taxonomy; decryption failures deliberately carry both an internal note
//! and a sanitised user text, and only the latter is ever displayed.

use vstd::prelude::*;
use vstd::string::*;
use crate::text::{contains_seq, str_contains};

verus! {

/// A network-layer failure, classified.
#[derive(Debug, Clone)]
pub enum NetworkError {
    /// Name resolution failed.
    DnsError(String),
    /// The connection or request timed out.
    ConnectionTimeout(String),
    /// TLS negotiation or certificate checking failed.
    TlsError(String),
    /// The HTTP exchange itself failed.
    HttpError(String),
    /// Any other network failure.
    Other(String),
}

/// Any failure the tool reports.
#[derive(Debug, Clone)]
pub enum AppError {
    /// A network failure, with its classification.
    NetworkError { source: NetworkError },
    /// The configuration could not be read, parsed or written.
    ConfigError(String),
    /// An operating-system facility failed.
    SystemError(String),
    /// An unclassified failure.
    UnknownError(String),
    /// The stored password could not be decrypted; `internal_msg` is for the
    /// log only, `user_msg` is the only text ever shown.
    PasswordDecryptionError { internal_msg: String, user_msg: String },
    /// Showing a notification failed.
    NotificationError(String),
    /// Writing or reading the log failed.
    LogError(String),
    /// Encryption or decryption failed.
    CryptoError(String),
}

/// The display text of a classified network failure.
pub open spec fn network_error_text(e: NetworkError) -> Seq<char> {
    match e {
        NetworkError::DnsError(m) => "DNS解析失败: "@ + m@,
        NetworkError::ConnectionTimeout(m) => "连接超时: "@ + m@,
        NetworkError::TlsError(m) => "TLS错误: "@ + m@,
        NetworkError::HttpError(m) => "HTTP错误: "@ + m@,
        NetworkError::Other(m) => "其他网络错误: "@ + m@,
    }
}

/// The display text of any failure.
pub open spec fn app_error_text(e: AppError) -> Seq<char> {
    match e {
        AppError::NetworkError { source } => "网络错误: "@ + network_error_text(source),
        AppError::ConfigError(m) => "配置错误: "@ + m@,
        AppError::SystemError(m) => "系统错误: "@ + m@,
        AppError::UnknownError(m) => "未知错误: "@ + m@,
        AppError::PasswordDecryptionError { internal_msg, user_msg } => user_msg@,
        AppError::NotificationError(m) => "通知错误: "@ + m@,
        AppError::LogError(m) => "日志错误: "@ + m@,
        AppError::CryptoError(m) => "加密错误: "@ + m@,
    }
}

impl NetworkError {
    /// The display text of this failure.
    pub fn to_message(&self) -> (r: String)
        ensures
            r@ == network_error_text(*self),
    {
        match self {
            NetworkError::DnsError(m) => String::from_str("DNS解析失败: ").concat(m.as_str()),
            NetworkError::ConnectionTimeout(m) => String::from_str("连接超时: ").concat(m.as_str()),
            NetworkError::TlsError(m) => String::from_str("TLS错误: ").concat(m.as_str()),
            NetworkError::HttpError(m) => String::from_str("HTTP错误: ").concat(m.as_str()),
            NetworkError::Other(m) => String::from_str("其他网络错误: ").concat(m.as_str()),
        }
    }
}

impl AppError {
    /// The display text of this failure.
    pub fn to_message(&self) -> (r: String)
        ensures
            r@ == app_error_text(*self),
    {
        match self {
            AppError::NetworkError { source } => String::from_str("网络错误: ").concat(
                source.to_message().as_str(),
            ),
            AppError::ConfigError(m) => String::from_str("配置错误: ").concat(m.as_str()),
            AppError::SystemError(m) => String::from_str("系统错误: ").concat(m.as_str()),
            AppError::UnknownError(m) => String::from_str("未知错误: ").concat(m.as_str()),
            AppError::PasswordDecryptionError { internal_msg: _, user_msg } => user_msg.clone(),
            AppError::NotificationError(m) => String::from_str("通知错误: ").concat(m.as_str()),
            AppError::LogError(m) => String::from_str("日志错误: ").concat(m.as_str()),
            AppError::CryptoError(m) => String::from_str("加密错误: ").concat(m.as_str()),
        }
    }
}

/// The message text reports a credential problem rather than a transport
/// problem.
pub open spec fn credential_failure_text(m: Seq<char>) -> bool {
    contains_seq(m, "ldap auth error"@) || contains_seq(m, "Msg=01"@)
}

/// The user-facing text for any failure during a login flow.
pub open spec fn user_friendly_text(e: AppError) -> Seq<char> {
    match e {
        AppError::NetworkError { source } => match source {
            NetworkError::ConnectionTimeout(m) => "连接超时: "@ + m@,
            NetworkError::DnsError(m) => "DNS解析失败: "@ + m@,
            NetworkError::TlsError(m) => "TLS连接错误: "@ + m@,
            NetworkError::HttpError(m) => if credential_failure_text(m@) {
                "登录请求失败: 账号或密码错误"@
            } else {
                "登录请求失败: "@ + m@
            },
            NetworkError::Other(m) => if credential_failure_text(m@) {
                "登录请求失败: 账号或密码错误"@
            } else {
                "登录请求失败: "@ + m@
            },
        },
        AppError::PasswordDecryptionError { internal_msg, user_msg } => user_msg@,
        _ => "登录过程出错: "@ + app_error_text(e),
    }
}

/// The user-facing text for `error`: transport failures name their kind, a
/// response that names a credential problem is reported as one, and a
/// decryption failure shows only its sanitised text.
pub fn generate_user_friendly_message(error: &AppError) -> (r: String)
    ensures
        r@ == user_friendly_text(*error),
{
    match error {
        AppError::NetworkError { source } => match source {
            NetworkError::ConnectionTimeout(m) => String::from_str("连接超时: ").concat(m.as_str()),
            NetworkError::DnsError(m) => String::from_str("DNS解析失败: ").concat(m.as_str()),
            NetworkError::TlsError(m) => String::from_str("TLS连接错误: ").concat(m.as_str()),
            NetworkError::HttpError(m) => {
                if str_contains(m.as_str(), "ldap auth error") || str_contains(
                    m.as_str(),
                    "Msg=01",
                ) {
                    String::from_str("登录请求失败: 账号或密码错误")
                } else {
                    String::from_str("登录请求失败: ").concat(m.as_str())
                }
            },
            NetworkError::Other(m) => {
                if str_contains(m.as_str(), "ldap auth error") || str_contains(
                    m.as_str(),
                    "Msg=01",
                ) {
                    String::from_str("登录请求失败: 账号或密码错误")
                } else {
                    String::from_str("登录请求失败: ").concat(m.as_str())
                }
            },
        },
        AppError::PasswordDecryptionError { internal_msg: _, user_msg } => user_msg.clone(),
        _ => String::from_str("登录过程出错: ").concat(error.to_message().as_str()),
    }
}

/// The short text for a failed login attempt.
pub open spec fn login_error_text(e: AppError) -> Seq<char> {
    match e {
        AppError::NetworkError { source } => match source {
            NetworkError::ConnectionTimeout(m) => "连接超时"@,
            NetworkError::DnsError(m) => "DNS解析失败"@,
            NetworkError::TlsError(m) => "TLS连接错误"@,
            _ => "网络错误: "@ + network_error_text(source),
        },
        _ => "登录过程出错: "@ + app_error_text(e),
    }
}

/// The short user text for a failure while attempting a login.
pub fn generate_login_error_message(error: &AppError) -> (r: String)
    ensures
        r@ == login_error_text(*error),
{
    match error {
        AppError::NetworkError { source } => match source {
            NetworkError::ConnectionTimeout(_) => String::from_str("连接超时"),
            NetworkError::DnsError(_) => String::from_str("DNS解析失败"),
            NetworkError::TlsError(_) => String::from_str("TLS连接错误"),
            _ => String::from_str("网络错误: ").concat(source.to_message().as_str()),
        },
        _ => String::from_str("登录过程出错: ").concat(error.to_message().as_str()),
    }
}

/// The short text for a failed status check.
pub open spec fn network_status_error_text(e: AppError) -> Seq<char> {
    match e {
        AppError::NetworkError { source: NetworkError::ConnectionTimeout(m) } => "网络状态检查超时"@,
        AppError::NetworkError { source: NetworkError::DnsError(m) } => "DNS解析失败，无法解析校园网地址"@,
        AppError::NetworkError { source: NetworkError::TlsError(m) } => "TLS连接错误"@,
        _ => "网络状态检查失败: "@ + app_error_text(e),
    }
}

/// The short user text for a failure while checking the network status.
pub fn generate_network_status_error_message(error: &AppError) -> (r: String)
    ensures
        r@ == network_status_error_text(*error),
{
    match error {
        AppError::NetworkError { source: NetworkError::ConnectionTimeout(_) } => String::from_str(
            "网络状态检查超时",
        ),
        AppError::NetworkError { source: NetworkError::DnsError(_) } => String::from_str(
            "DNS解析失败，无法解析校园网地址",
        ),
        AppError::NetworkError { source: NetworkError::TlsError(_) } => String::from_str(
            "TLS连接错误",
        ),
        _ => String::from_str("网络状态检查失败: ").concat(error.to_message().as_str()),
    }
}

/// The message text names a timeout.
pub open spec fn error_text_timeout(m: Seq<char>) -> bool {
    contains_seq(m, "timed out"@) || contains_seq(m, "timeout"@)
}

/// The message text names a resolution failure.
pub open spec fn error_text_dns(m: Seq<char>) -> bool {
    contains_seq(m, "dns"@) || contains_seq(m, "DNS"@)
}

/// The message text names a TLS failure.
pub open spec fn error_text_tls(m: Seq<char>) -> bool {
    contains_seq(m, "tls"@) || contains_seq(m, "TLS"@) || contains_seq(m, "certificate"@)
}

/// Classify a transport error from its message text and whether the
/// underlying client reported a connection failure: a timeout first, then
/// name resolution, then TLS, then a plain connection failure, else a
/// general HTTP failure.
pub fn classify_network_error(msg: &str, is_connect: bool) -> (r: NetworkError)
    ensures
        error_text_timeout(msg@) ==> (r matches NetworkError::ConnectionTimeout(t) && t@
            == "请求超时"@),
        !error_text_timeout(msg@) && error_text_dns(msg@) ==> (r matches NetworkError::DnsError(t)
            && t@ == "DNS解析失败: "@ + msg@),
        !error_text_timeout(msg@) && !error_text_dns(msg@) && error_text_tls(msg@) ==> (r matches
            NetworkError::TlsError(t) && t@ == "TLS错误: "@ + msg@),
        !error_text_timeout(msg@) && !error_text_dns(msg@) && !error_text_tls(msg@) && is_connect
            ==> (r matches NetworkError::Other(t) && t@ == "连接失败: "@ + msg@),
        !error_text_timeout(msg@) && !error_text_dns(msg@) && !error_text_tls(msg@) && !is_connect
            ==> (r matches NetworkError::HttpError(t) && t@ == "网络请求失败: "@ + msg@),
{
    if str_contains(msg, "timed out") || str_contains(msg, "timeout") {
        NetworkError::ConnectionTimeout(String::from_str("请求超时"))
    } else if str_contains(msg, "dns") || str_contains(msg, "DNS") {
        NetworkError::DnsError(String::from_str("DNS解析失败: ").concat(msg))
    } else if str_contains(msg, "tls") || str_contains(msg, "TLS") || str_contains(
        msg,
        "certificate",
    ) {
        NetworkError::TlsError(String::from_str("TLS错误: ").concat(msg))
    } else if is_connect {
        NetworkError::Other(String::from_str("连接失败: ").concat(msg))
    } else {
        NetworkError::HttpError(String::from_str("网络请求失败: ").concat(msg))
    }
}

/// A failure of the self-service quota subsystem.
#[derive(Debug, Clone)]
pub enum FlowError {
    /// The quota portal could not be reached.
    NetworkError(String),
    /// The quota could not be read out of the page.
    ParseError(String),
    /// The quota portal rejected the login.
    LoginFailed(String),
}

/// The display text of a quota-subsystem failure.
pub open spec fn flow_error_text(e: FlowError) -> Seq<char> {
    match e {
        FlowError::NetworkError(m) => "网络错误: "@ + m@,
        FlowError::ParseError(m) => "解析错误: "@ + m@,
        FlowError::LoginFailed(m) => "登录失败: "@ + m@,
    }
}

impl FlowError {
    /// The display text of this failure.
    pub fn to_message(&self) -> (r: String)
        ensures
            r@ == flow_error_text(*self),
    {
        match self {
            FlowError::NetworkError(m) => String::from_str("网络错误: ").concat(m.as_str()),
            FlowError::ParseError(m) => String::from_str("解析错误: ").concat(m.as_str()),
            FlowError::LoginFailed(m) => String::from_str("登录失败: ").concat(m.as_str()),
        }
    }
}

} // verus!
