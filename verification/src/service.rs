//! The orchestration layer's decisions: credential validation, which probes
//! a cycle needs, how a finished attempt is reported, and the silent-login
//! flow as a step machine.
//!
//! The runner performs one step's work — a probe, a decryption, a login
//! request — and hands the outcome back as an event; every decision between
//! steps is made here.

use vstd::prelude::*;
use vstd::string::*;
use crate::config::ConfigData;
use crate::error::{app_error_text, AppError};
use crate::login;
use crate::message::{
    composed_text, cycle_text, elapsed_text_spec, EmitPlan, LogLevel, MessageCenter,
};
use crate::status::{CampusNetworkStatus, WanStatus};
use crate::text::{contains_seq, str_contains};

verus! {

/// `c` is an ASCII decimal digit.
pub open spec fn is_digit_char(c: char) -> bool {
    48 <= (c as u32) <= 57
}

/// A valid account name: empty (meaning unchanged), or digits only and
/// between three and twelve of them.
pub open spec fn valid_username(s: Seq<char>) -> bool {
    s.len() == 0 || ((forall|i: int| 0 <= i < s.len() ==> is_digit_char(s[i])) && 3 <= s.len()
        <= 12)
}

/// Whether an account name is acceptable: student and staff numbers are
/// three to twelve digits; the empty string stands for "leave unchanged".
pub fn validate_username(username: &str) -> (r: bool)
    ensures
        r == valid_username(username@),
{
    let chars = crate::text::chars_vec(username);
    let n = chars.len();
    if n == 0 {
        return true;
    }
    let mut i: usize = 0;
    while i < n
        invariant
            n == chars@.len(),
            chars@ == username@,
            i <= n,
            forall|j: int| 0 <= j < i ==> is_digit_char(username@[j]),
        decreases n - i,
    {
        let u = chars[i] as u32;
        if u < 48 || u > 57 {
            return false;
        }
        i = i + 1;
    }
    3 <= n && n <= 12
}

/// A valid password: empty (meaning unchanged), or eight to thirty-two
/// bytes long.
///
/// The portal also publishes a composition rule (upper and lower case,
/// digit and symbol), but accounts predating it remain valid, so length is
/// deliberately the only check enforced here.
pub fn validate_password(password: &str) -> (r: bool)
    ensures
        r == (password@.len() == 0 || (8 <= password.spec_bytes().len()
            <= 32)),
{
    if password.is_empty() {
        return true;
    }
    let n = password.as_bytes().len();
    8 <= n && n <= 32
}

/// The configured templates ask for the wide-area field.
pub open spec fn wan_check_wanted(c: ConfigData) -> bool {
    contains_seq(c.message.notify_text@, "%2"@) || contains_seq(c.message.gui_text@, "%2"@)
        || contains_seq(c.message.log_text@, "%2"@)
}

/// Whether the wide-area race is worth running at all: some template must
/// display its outcome.
pub fn should_check_wan(config: &ConfigData) -> (r: bool)
    ensures
        r == wan_check_wanted(*config),
{
    str_contains(config.message.notify_text.as_str(), "%2") || str_contains(
        config.message.gui_text.as_str(),
        "%2",
    ) || str_contains(config.message.log_text.as_str(), "%2")
}

/// The account is on the campus provider and some template asks for the
/// quota field.
pub open spec fn flow_info_wanted(c: ConfigData) -> bool {
    c.account.isp@.len() == 0 && (contains_seq(c.message.notify_text@, "%4"@) || contains_seq(
        c.message.gui_text@,
        "%4"@,
    ) || contains_seq(c.message.log_text@, "%4"@))
}

/// Whether the remaining quota is worth fetching: only the campus provider
/// has one, and some template must display it.
pub fn should_get_flow_info(config: &ConfigData) -> (r: bool)
    ensures
        r == flow_info_wanted(*config),
{
    config.account.isp.as_str().is_empty() && (str_contains(
        config.message.notify_text.as_str(),
        "%4",
    ) || str_contains(config.message.gui_text.as_str(), "%4") || str_contains(
        config.message.log_text.as_str(),
        "%4",
    ))
}

/// A failed portal probe counts as not logged in: the flow never aborts on
/// it, it falls through to a login attempt.
pub fn resolve_campus_status(result: &Result<CampusNetworkStatus, AppError>) -> (r:
    CampusNetworkStatus)
    ensures
        result matches Ok(s) ==> r == s,
        result is Err ==> r == CampusNetworkStatus::NotLoggedIn,
{
    match result {
        Ok(s) => *s,
        Err(_) => CampusNetworkStatus::NotLoggedIn,
    }
}

/// The configuration is complete enough to attempt a login.
pub open spec fn config_complete(c: ConfigData) -> bool {
    c.account.username@.len() > 0 && c.account.encrypted_password@.len() > 0
}

/// What a whole login cycle hands back to its caller.
#[derive(Debug, Clone)]
pub struct LoginResult {
    /// The cycle ended in a working connection.
    pub success: bool,
    /// The user-facing text of the outcome.
    pub message: String,
    /// Elapsed time of the cycle, in hundredths of a second.
    pub elapsed_centis: u64,
}

/// Report a finished login attempt: the composed cycle messages, and the
/// result whose text is the cycle's interface text.
pub fn login_attempt_report(
    center: &MessageCenter,
    attempt: &login::LoginResult,
    wan_status: WanStatus,
    flow_centi_mb: Option<u64>,
    elapsed_centis: u64,
) -> (r: (LoginResult, EmitPlan))
    ensures
        r.0.success == attempt.success,
        r.0.elapsed_centis == elapsed_centis,
        r.0.message@ == r.1.gui_message@,
        r.1.log_level == (if attempt.success {
            LogLevel::Info
        } else {
            LogLevel::Error
        }),
        center.config is None ==> r.1.gui_message@ == crate::message::bare_status_text(
            attempt.campus_status,
            wan_status,
        ) && r.1.log_line is None && r.1.notification is None,
        center.config matches Some(c) ==> {
            &&& r.1.gui_message@ == cycle_text(
                c.message.gui_text@,
                attempt.campus_status,
                wan_status,
                elapsed_centis,
                c.account.isp@,
                flow_centi_mb,
                true,
            )
            &&& (r.1.log_line matches Some(l) && l@ == cycle_text(
                c.message.log_text@,
                attempt.campus_status,
                wan_status,
                elapsed_centis,
                c.account.isp@,
                flow_centi_mb,
                false,
            ))
            &&& (r.1.notification matches Some(n) && n@ == cycle_text(
                c.message.notify_text@,
                attempt.campus_status,
                wan_status,
                elapsed_centis,
                c.account.isp@,
                flow_centi_mb,
                true,
            ))
        },
{
    let plan = center.handle_login_result(
        attempt.campus_status,
        wan_status,
        elapsed_centis,
        attempt.success,
        flow_centi_mb,
    );
    let result = LoginResult {
        success: attempt.success,
        message: plan.gui_message.clone(),
        elapsed_centis,
    };
    (result, plan)
}

/// Report a login attempt that failed before any response came back: the
/// interface names the failure, the log line is a warning, and the flow
/// still ends in an ordinary failed result.
pub fn login_failure_report(error: &AppError, elapsed_centis: u64) -> (r: (
    LoginResult,
    String,
    LogLevel,
))
    ensures
        !r.0.success,
        r.0.elapsed_centis == elapsed_centis,
        r.0.message@ == "登录失败: "@ + app_error_text(*error),
        r.1@ == "登录请求失败: "@ + app_error_text(*error),
        r.2 == LogLevel::Warning,
{
    let text = error.to_message();
    let gui = String::from_str("登录失败: ").concat(text.as_str());
    let log = String::from_str("登录请求失败: ").concat(text.as_str());
    (
        LoginResult { success: false, message: gui, elapsed_centis },
        log,
        LogLevel::Warning,
    )
}

impl MessageCenter {
    /// Report a finished silent attempt without raising any notification:
    /// only a log line is owed, composed from the templates with every
    /// field empty, at a severity following the attempt's success.
    pub fn handle_login_result_without_event(&self, result: LoginResult) -> (r: (
        LoginResult,
        Option<String>,
        LogLevel,
    ))
        ensures
            r.0 == result,
            r.2 == (if result.success {
                LogLevel::Info
            } else {
                LogLevel::Error
            }),
            self.config is None ==> r.1 is None,
            self.config matches Some(c) ==> (r.1 matches Some(l) && l@ == composed_text(
                c.message.log_text@,
                Seq::<char>::empty(),
                Seq::<char>::empty(),
                Seq::<char>::empty(),
                Seq::<char>::empty(),
                false,
            )),
    {
        let level = if result.success {
            LogLevel::Info
        } else {
            LogLevel::Error
        };
        match &self.config {
            None => (result, None, level),
            Some(config) => {
                let builder = crate::message::MessageBuilder::new(config.account.isp.clone());
                let ghost b = builder;
                proof {
                    assert(crate::message::builder_campus_text(b) =~= Seq::<char>::empty());
                    assert(crate::message::builder_wan_text(b) =~= Seq::<char>::empty());
                    assert(crate::message::builder_time_text(b) =~= Seq::<char>::empty());
                    assert(crate::message::builder_flow_text(b) =~= Seq::<char>::empty());
                }
                let composed = builder.build(&config.message);
                (result, Some(composed.log_message), level)
            },
        }
    }
}

/// The next piece of outside work a silent login asks its runner for.
#[derive(Debug, Clone)]
pub enum SilentStep {
    /// Trim old lines from the log file.
    CleanLogs,
    /// Probe the portal, and the wide area when the templates want it.
    CheckStatus,
    /// Fetch the remaining quota; the statuses ride along for the report.
    FetchFlow {
        /// Campus status the finished check reported.
        campus_status: CampusNetworkStatus,
        /// Wide-area status the finished check reported.
        wan_status: WanStatus,
    },
    /// Decrypt the stored password.
    DecryptPassword,
    /// Send the login request with this password.
    AttemptLogin {
        /// The decrypted password.
        password: String,
    },
    /// The flow is over: hand the result back, after writing the owed log
    /// line and notification.
    Finish {
        /// The cycle's result.
        result: LoginResult,
        /// The owed log line, if any.
        log_line: Option<String>,
        /// Severity of the owed log line.
        log_level: LogLevel,
        /// The owed notification, if any.
        notification: Option<String>,
    },
}

/// What the runner reports back after performing a step.
#[derive(Debug, Clone)]
pub enum SilentEvent {
    /// The flow begins.
    Started,
    /// Log cleaning finished; a failure is noted and worked around.
    LogsCleaned {
        /// The failure's text, when cleaning failed.
        error: Option<String>,
    },
    /// The status check finished; a probe failure is reported as no campus
    /// status and its text.
    StatusChecked {
        /// The campus status, when the probe answered.
        campus_status: Option<CampusNetworkStatus>,
        /// The wide-area status; a skipped or failed race reports
        /// `CheckFailed`.
        wan_status: WanStatus,
        /// The probe failure's text, when it failed.
        error: Option<String>,
        /// Elapsed time since the cycle began, in hundredths of a second.
        elapsed_centis: u64,
    },
    /// The quota fetch finished.
    FlowFetched {
        /// Wide-area status riding along from the check.
        wan_status: WanStatus,
        /// The fetched quota, in hundredths of a megabyte, when it could be
        /// read.
        flow_centi_mb: Option<u64>,
        /// Elapsed time since the cycle began.
        elapsed_centis: u64,
    },
    /// Password decryption finished.
    PasswordDecrypted {
        /// The password, when decryption succeeded.
        password: Option<String>,
        /// Elapsed time since the cycle began.
        elapsed_centis: u64,
    },
    /// The login attempt finished and was reported.
    LoginFinished {
        /// Whether the attempt succeeded.
        success: bool,
        /// The attempt's interface text.
        message: String,
        /// Elapsed time since the cycle began.
        elapsed_centis: u64,
    },
}

/// One decision of the silent-login flow: from the runner's event to the
/// next step, with an optional best-effort notification to show first.
///
/// The flow is: clean logs when logging is on; check the status; a host
/// already logged in is reported at once (after a quota fetch when the
/// templates want one); otherwise an incomplete configuration or a failed
/// decryption ends the flow with its own report, and a complete one leads
/// to the login attempt, whose report ends the flow.
pub fn silent_login_step(center: &MessageCenter, event: SilentEvent) -> (r: (
    SilentStep,
    Option<String>,
))
    requires
        center.config is Some,
    ensures
        ({
            let c = center.config->0;
            match event {
                SilentEvent::Started => {
                    &&& (c.logging.enable_logging ==> r.0 is CleanLogs)
                    &&& (!c.logging.enable_logging ==> r.0 is CheckStatus)
                    &&& r.1 is None
                },
                SilentEvent::LogsCleaned { error } => {
                    &&& r.0 is CheckStatus
                    &&& (match error {
                        Some(e) => r.1 matches Some(n) && n@ == "清理旧日志失败: "@ + e@
                            + "，将继续执行登录流程"@,
                        None => r.1 is None,
                    })
                },
                SilentEvent::StatusChecked { campus_status, wan_status, error, elapsed_centis } => {
                    if campus_status == Some(CampusNetworkStatus::AlreadyLoggedIn) {
                        &&& r.1 is None
                        &&& (flow_info_wanted(c) ==> r.0 == (SilentStep::FetchFlow {
                            campus_status: CampusNetworkStatus::AlreadyLoggedIn,
                            wan_status,
                        }))
                        &&& (!flow_info_wanted(c) ==> finish_report_matches(
                            r.0,
                            c,
                            CampusNetworkStatus::AlreadyLoggedIn,
                            wan_status,
                            None,
                            elapsed_centis,
                        ))
                    } else {
                        &&& (match error {
                            Some(e) => r.1 matches Some(n) && n@ == "网络状态检查失败: "@ + e@
                                + "，将继续执行登录流程"@,
                            None => r.1 is None,
                        })
                        &&& (!config_complete(c) ==> finish_incomplete_matches(
                            r.0,
                            elapsed_centis,
                        ))
                        &&& (config_complete(c) ==> r.0 is DecryptPassword)
                    }
                },
                SilentEvent::FlowFetched { wan_status, flow_centi_mb, elapsed_centis } => {
                    &&& r.1 is None
                    &&& finish_report_matches(
                        r.0,
                        c,
                        CampusNetworkStatus::AlreadyLoggedIn,
                        wan_status,
                        flow_centi_mb,
                        elapsed_centis,
                    )
                },
                SilentEvent::PasswordDecrypted { password, elapsed_centis } => {
                    &&& r.1 is None
                    &&& (match password {
                        Some(p) => r.0 matches SilentStep::AttemptLogin { password: q } && q@
                            == p@,
                        None => finish_decrypt_failed_matches(r.0, elapsed_centis),
                    })
                },
                SilentEvent::LoginFinished { success, message, elapsed_centis } => {
                    &&& r.1 is None
                    &&& (r.0 matches SilentStep::Finish {
                        result,
                        log_line,
                        log_level,
                        notification,
                    } && result.success == success && result.message@ == message@
                        && result.elapsed_centis == elapsed_centis && log_line is None
                        && notification is None)
                },
            }
        }),
{
    match event {
        SilentEvent::Started => {
            let config = center.config.as_ref().unwrap();
            if config.logging.enable_logging {
                (SilentStep::CleanLogs, None)
            } else {
                (SilentStep::CheckStatus, None)
            }
        },
        SilentEvent::LogsCleaned { error } => {
            let note = match error {
                Some(e) => Some(
                    String::from_str("清理旧日志失败: ").concat(e.as_str()).concat(
                        "，将继续执行登录流程",
                    ),
                ),
                None => None,
            };
            (SilentStep::CheckStatus, note)
        },
        SilentEvent::StatusChecked { campus_status, wan_status, error, elapsed_centis } => {
            let config = center.config.as_ref().unwrap();
            if campus_status == Some(CampusNetworkStatus::AlreadyLoggedIn) {
                if should_get_flow_info(config) {
                    (
                        SilentStep::FetchFlow {
                            campus_status: CampusNetworkStatus::AlreadyLoggedIn,
                            wan_status,
                        },
                        None,
                    )
                } else {
                    (
                        finish_report(
                            center,
                            CampusNetworkStatus::AlreadyLoggedIn,
                            wan_status,
                            None,
                            elapsed_centis,
                        ),
                        None,
                    )
                }
            } else {
                let note = match error {
                    Some(e) => Some(
                        String::from_str("网络状态检查失败: ").concat(e.as_str()).concat(
                            "，将继续执行登录流程",
                        ),
                    ),
                    None => None,
                };
                if !crate::config::is_config_complete(config) {
                    (finish_incomplete(elapsed_centis), note)
                } else {
                    (SilentStep::DecryptPassword, note)
                }
            }
        },
        SilentEvent::FlowFetched { wan_status, flow_centi_mb, elapsed_centis } => {
            (
                finish_report(
                    center,
                    CampusNetworkStatus::AlreadyLoggedIn,
                    wan_status,
                    flow_centi_mb,
                    elapsed_centis,
                ),
                None,
            )
        },
        SilentEvent::PasswordDecrypted { password, elapsed_centis } => {
            match password {
                Some(p) => (SilentStep::AttemptLogin { password: p }, None),
                None => (finish_decrypt_failed(elapsed_centis), None),
            }
        },
        SilentEvent::LoginFinished { success, message, elapsed_centis } => {
            (
                SilentStep::Finish {
                    result: LoginResult { success, message, elapsed_centis },
                    log_line: None,
                    log_level: LogLevel::Info,
                    notification: None,
                },
                None,
            )
        },
    }
}

/// The step is a successful final report for an already-logged-in host:
/// the cycle's three texts composed from the templates, logged and
/// notified.
pub open spec fn finish_report_matches(
    step: SilentStep,
    c: ConfigData,
    campus: CampusNetworkStatus,
    wan: WanStatus,
    flow_centi_mb: Option<u64>,
    elapsed_centis: u64,
) -> bool {
    step matches SilentStep::Finish { result, log_line, log_level, notification }
        && result.success && result.elapsed_centis == elapsed_centis && result.message@
        == cycle_text(
        c.message.gui_text@,
        campus,
        wan,
        elapsed_centis,
        c.account.isp@,
        flow_centi_mb,
        true,
    ) && (log_line matches Some(l) && l@ == cycle_text(
        c.message.log_text@,
        campus,
        wan,
        elapsed_centis,
        c.account.isp@,
        flow_centi_mb,
        false,
    )) && log_level == LogLevel::Info && (notification matches Some(n) && n@ == cycle_text(
        c.message.notify_text@,
        campus,
        wan,
        elapsed_centis,
        c.account.isp@,
        flow_centi_mb,
        true,
    ))
}

fn finish_report(
    center: &MessageCenter,
    campus: CampusNetworkStatus,
    wan: WanStatus,
    flow_centi_mb: Option<u64>,
    elapsed_centis: u64,
) -> (r: SilentStep)
    requires
        center.config is Some,
    ensures
        finish_report_matches(
            r,
            center.config->0,
            campus,
            wan,
            flow_centi_mb,
            elapsed_centis,
        ),
{
    let plan = center.handle_network_status(campus, wan, elapsed_centis, true, true, flow_centi_mb);
    SilentStep::Finish {
        result: LoginResult {
            success: true,
            message: plan.gui_message,
            elapsed_centis,
        },
        log_line: plan.log_line,
        log_level: LogLevel::Info,
        notification: plan.notification,
    }
}

/// The step is the final report of an incomplete configuration: a failed
/// result whose text names it, an error log line with the elapsed time, and
/// a notification.
pub open spec fn finish_incomplete_matches(step: SilentStep, elapsed_centis: u64) -> bool {
    step matches SilentStep::Finish { result, log_line, log_level, notification }
        && !result.success && result.elapsed_centis == elapsed_centis && result.message@
        == "配置不完整"@ && (log_line matches Some(l) && l@ == "配置不完整 "@ + elapsed_text_spec(
        elapsed_centis as nat,
    )) && log_level == LogLevel::Error && (notification matches Some(n) && n@ == "配置不完整"@)
}

fn finish_incomplete(elapsed_centis: u64) -> (r: SilentStep)
    ensures
        finish_incomplete_matches(r, elapsed_centis),
{
    let time = crate::message::elapsed_text(elapsed_centis);
    let log = String::from_str("配置不完整 ").concat(
        crate::text::string_from_chars(&time).as_str(),
    );
    assert(log@ =~= "配置不完整 "@ + elapsed_text_spec(elapsed_centis as nat));
    SilentStep::Finish {
        result: LoginResult {
            success: false,
            message: String::from_str("配置不完整"),
            elapsed_centis,
        },
        log_line: Some(log),
        log_level: LogLevel::Error,
        notification: Some(String::from_str("配置不完整")),
    }
}

/// The step is the final report of a failed decryption: a failed result
/// whose sanitised text asks for the password again, an error log line with
/// the elapsed time, and a notification.
pub open spec fn finish_decrypt_failed_matches(step: SilentStep, elapsed_centis: u64) -> bool {
    step matches SilentStep::Finish { result, log_line, log_level, notification }
        && !result.success && result.elapsed_centis == elapsed_centis && result.message@
        == "密码解密失败，请重新输入密码"@ && (log_line matches Some(l) && l@
        == "密码解密失败，请重新输入密码 "@ + elapsed_text_spec(elapsed_centis as nat))
        && log_level == LogLevel::Error && (notification matches Some(n) && n@
        == "密码解密失败，请重新输入密码"@)
}

fn finish_decrypt_failed(elapsed_centis: u64) -> (r: SilentStep)
    ensures
        finish_decrypt_failed_matches(r, elapsed_centis),
{
    let time = crate::message::elapsed_text(elapsed_centis);
    let log = String::from_str("密码解密失败，请重新输入密码 ").concat(
        crate::text::string_from_chars(&time).as_str(),
    );
    assert(log@ =~= "密码解密失败，请重新输入密码 "@ + elapsed_text_spec(elapsed_centis as nat));
    SilentStep::Finish {
        result: LoginResult {
            success: false,
            message: String::from_str("密码解密失败，请重新输入密码"),
            elapsed_centis,
        },
        log_line: Some(log),
        log_level: LogLevel::Error,
        notification: Some(String::from_str("密码解密失败，请重新输入密码")),
    }
}

} // verus!
