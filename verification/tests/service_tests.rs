use autologinguet::config::ConfigData;
use autologinguet::error::{AppError, NetworkError};
use autologinguet::login;
use autologinguet::message::{LogLevel, MessageCenter};
use autologinguet::service::{
    login_attempt_report, login_failure_report, resolve_campus_status, should_check_wan,
    should_get_flow_info, silent_login_step, validate_password, validate_username, SilentEvent,
    SilentStep,
};
use autologinguet::status::{CampusNetworkStatus, WanStatus};

fn complete_config() -> ConfigData {
    let mut config = ConfigData::default();
    config.account.username = String::from("2021001");
    config.account.encrypted_password = String::from("sealed");
    config
}

#[test]
fn usernames_are_digit_strings_of_bounded_length() {
    assert!(validate_username(""));
    assert!(validate_username("123"));
    assert!(validate_username("123456789012"));
    assert!(!validate_username("12"));
    assert!(!validate_username("1234567890123"));
    assert!(!validate_username("12a4"));
    assert!(!validate_username("２３４"));
}

#[test]
fn passwords_are_checked_by_length_alone() {
    assert!(validate_password(""));
    assert!(!validate_password("short"));
    assert!(validate_password("12345678"));
    assert!(validate_password("abcdefghijklmnopqrstuvwxyzABCDEF"));
    assert!(!validate_password("abcdefghijklmnopqrstuvwxyzABCDEFG"));
    assert!(validate_password("lowercaseonly"));
}

#[test]
fn wan_check_follows_the_templates() {
    let mut config = ConfigData::default();
    assert!(should_check_wan(&config));
    config.message.notify_text = String::from("%1 %3");
    config.message.gui_text = String::from("%1");
    config.message.log_text = String::from("%1 %3");
    assert!(!should_check_wan(&config));
}

#[test]
fn flow_fetch_needs_campus_provider_and_a_template_field() {
    let mut config = ConfigData::default();
    assert!(should_get_flow_info(&config));
    config.account.isp = String::from("yd");
    assert!(!should_get_flow_info(&config));
    config.account.isp = String::new();
    config.message.notify_text = String::from("%1 %2 %3");
    config.message.gui_text = String::from("%1 %2");
    config.message.log_text = String::from("%1 %2 %3");
    assert!(!should_get_flow_info(&config));
}

#[test]
fn failed_probe_resolves_to_not_logged_in() {
    let err: Result<CampusNetworkStatus, AppError> = Err(AppError::NetworkError {
        source: NetworkError::ConnectionTimeout(String::from("请求超时")),
    });
    assert_eq!(resolve_campus_status(&err), CampusNetworkStatus::NotLoggedIn);
    let ok: Result<CampusNetworkStatus, AppError> = Ok(CampusNetworkStatus::AlreadyLoggedIn);
    assert_eq!(resolve_campus_status(&ok), CampusNetworkStatus::AlreadyLoggedIn);
}

#[test]
fn unreachable_wan_and_failed_probe_compose_a_plain_failure() {
    // A timed-out portal probe plus zero reachable hosts must end in an
    // ordinary "not connected" report, never an aborted flow.
    let probe: Result<CampusNetworkStatus, AppError> = Err(AppError::NetworkError {
        source: NetworkError::ConnectionTimeout(String::from("请求超时")),
    });
    let campus = resolve_campus_status(&probe);
    let raced = autologinguet::classify::wan_race_outcome(&Vec::new());
    let wan = autologinguet::classify::wan_status_from_race(raced);
    assert_eq!(campus, CampusNetworkStatus::NotLoggedIn);
    assert_eq!(wan, WanStatus::Disconnected);
    let center = MessageCenter::new(Some(ConfigData::default()));
    let plan = center.handle_network_status(campus, wan, 1000, false, false, None);
    assert_eq!(plan.gui_message, "未登录校园网 无法访问广域网");
}

#[test]
fn attempt_report_carries_the_interface_text() {
    let center = MessageCenter::new(Some(complete_config()));
    let attempt = login::LoginResult {
        success: true,
        campus_status: CampusNetworkStatus::LoginSuccess,
        elapsed_centis: 150,
    };
    let (result, plan) = login_attempt_report(&center, &attempt, WanStatus::Connected, None, 150);
    assert!(result.success);
    assert_eq!(result.message, plan.gui_message);
    assert_eq!(plan.gui_message, "登录校园网成功！ 已接入广域网");
    assert_eq!(plan.log_level, LogLevel::Info);
}

#[test]
fn transport_failure_report_is_a_warning() {
    let e = AppError::NetworkError { source: NetworkError::ConnectionTimeout(String::from("10s")) };
    let (result, log, level) = login_failure_report(&e, 30);
    assert!(!result.success);
    assert_eq!(result.message, "登录失败: 网络错误: 连接超时: 10s");
    assert_eq!(log, "登录请求失败: 网络错误: 连接超时: 10s");
    assert_eq!(level, LogLevel::Warning);
}

#[test]
fn silent_flow_starts_with_log_cleaning_when_logging_is_on() {
    let center = MessageCenter::new(Some(complete_config()));
    let (step, note) = silent_login_step(&center, SilentEvent::Started);
    assert!(matches!(step, SilentStep::CleanLogs));
    assert!(note.is_none());

    let mut quiet = complete_config();
    quiet.logging.enable_logging = false;
    let center2 = MessageCenter::new(Some(quiet));
    let (step2, _) = silent_login_step(&center2, SilentEvent::Started);
    assert!(matches!(step2, SilentStep::CheckStatus));
}

#[test]
fn failed_log_cleaning_is_noted_and_worked_around() {
    let center = MessageCenter::new(Some(complete_config()));
    let (step, note) = silent_login_step(
        &center,
        SilentEvent::LogsCleaned { error: Some(String::from("日志错误: 只读")) },
    );
    assert!(matches!(step, SilentStep::CheckStatus));
    assert_eq!(
        note.as_deref(),
        Some("清理旧日志失败: 日志错误: 只读，将继续执行登录流程")
    );
}

#[test]
fn logged_in_host_is_reported_at_once() {
    let mut config = complete_config();
    config.account.isp = String::from("yd");
    let center = MessageCenter::new(Some(config));
    let (step, note) = silent_login_step(
        &center,
        SilentEvent::StatusChecked {
            campus_status: Some(CampusNetworkStatus::AlreadyLoggedIn),
            wan_status: WanStatus::Connected,
            error: None,
            elapsed_centis: 50,
        },
    );
    assert!(note.is_none());
    match step {
        SilentStep::Finish { result, log_line, log_level, notification } => {
            assert!(result.success);
            assert_eq!(result.message, "已登录校园网 已接入广域网");
            assert_eq!(log_line.as_deref(), Some("已登录校园网 已接入广域网 用时0.50秒"));
            assert_eq!(log_level, LogLevel::Info);
            assert_eq!(
                notification.as_deref(),
                Some("已登录校园网 已接入广域网\n用时0.50秒")
            );
        }
        other => panic!("expected a final report, got {:?}", other),
    }
}

#[test]
fn logged_in_campus_host_fetches_the_quota_first() {
    let center = MessageCenter::new(Some(complete_config()));
    let (step, _) = silent_login_step(
        &center,
        SilentEvent::StatusChecked {
            campus_status: Some(CampusNetworkStatus::AlreadyLoggedIn),
            wan_status: WanStatus::Connected,
            error: None,
            elapsed_centis: 50,
        },
    );
    assert!(matches!(
        step,
        SilentStep::FetchFlow { campus_status: CampusNetworkStatus::AlreadyLoggedIn, wan_status: WanStatus::Connected }
    ));
    let (step2, _) = silent_login_step(
        &center,
        SilentEvent::FlowFetched {
            wan_status: WanStatus::Connected,
            flow_centi_mb: Some(51200),
            elapsed_centis: 80,
        },
    );
    match step2 {
        SilentStep::Finish { result, notification, .. } => {
            assert!(result.success);
            assert_eq!(
                notification.as_deref(),
                Some("已登录校园网 已接入广域网\n用时0.80秒 剩余流量512.00MB")
            );
        }
        other => panic!("expected a final report, got {:?}", other),
    }
}

#[test]
fn incomplete_configuration_ends_the_flow() {
    let center = MessageCenter::new(Some(ConfigData::default()));
    let (step, note) = silent_login_step(
        &center,
        SilentEvent::StatusChecked {
            campus_status: Some(CampusNetworkStatus::NotLoggedIn),
            wan_status: WanStatus::CheckFailed,
            error: None,
            elapsed_centis: 100,
        },
    );
    assert!(note.is_none());
    match step {
        SilentStep::Finish { result, log_line, log_level, notification } => {
            assert!(!result.success);
            assert_eq!(result.message, "配置不完整");
            assert_eq!(log_line.as_deref(), Some("配置不完整 用时1.00秒"));
            assert_eq!(log_level, LogLevel::Error);
            assert_eq!(notification.as_deref(), Some("配置不完整"));
        }
        other => panic!("expected a final report, got {:?}", other),
    }
}

#[test]
fn failed_status_check_is_noted_and_the_flow_goes_on() {
    let center = MessageCenter::new(Some(complete_config()));
    let (step, note) = silent_login_step(
        &center,
        SilentEvent::StatusChecked {
            campus_status: None,
            wan_status: WanStatus::CheckFailed,
            error: Some(String::from("网络状态检查超时")),
            elapsed_centis: 1000,
        },
    );
    assert!(matches!(step, SilentStep::DecryptPassword));
    assert_eq!(
        note.as_deref(),
        Some("网络状态检查失败: 网络状态检查超时，将继续执行登录流程")
    );
}

#[test]
fn decryption_outcome_decides_the_next_step() {
    let center = MessageCenter::new(Some(complete_config()));
    let (step, _) = silent_login_step(
        &center,
        SilentEvent::PasswordDecrypted { password: Some(String::from("pw")), elapsed_centis: 10 },
    );
    assert!(matches!(step, SilentStep::AttemptLogin { password } if password == "pw"));

    let (step2, _) = silent_login_step(
        &center,
        SilentEvent::PasswordDecrypted { password: None, elapsed_centis: 200 },
    );
    match step2 {
        SilentStep::Finish { result, log_line, log_level, notification } => {
            assert!(!result.success);
            assert_eq!(result.message, "密码解密失败，请重新输入密码");
            assert_eq!(log_line.as_deref(), Some("密码解密失败，请重新输入密码 用时2.00秒"));
            assert_eq!(log_level, LogLevel::Error);
            assert_eq!(notification.as_deref(), Some("密码解密失败，请重新输入密码"));
        }
        other => panic!("expected a final report, got {:?}", other),
    }
}

#[test]
fn finished_attempt_passes_through() {
    let center = MessageCenter::new(Some(complete_config()));
    let (step, _) = silent_login_step(
        &center,
        SilentEvent::LoginFinished {
            success: true,
            message: String::from("登录校园网成功！"),
            elapsed_centis: 321,
        },
    );
    match step {
        SilentStep::Finish { result, log_line, notification, .. } => {
            assert!(result.success);
            assert_eq!(result.message, "登录校园网成功！");
            assert_eq!(result.elapsed_centis, 321);
            assert!(log_line.is_none());
            assert!(notification.is_none());
        }
        other => panic!("expected a final report, got {:?}", other),
    }
}

#[test]
fn silent_report_logs_without_notifying() {
    let center = MessageCenter::new(Some(complete_config()));
    let result = autologinguet::service::LoginResult {
        success: false,
        message: String::from("x"),
        elapsed_centis: 5,
    };
    let (back, log, level) = center.handle_login_result_without_event(result);
    assert!(!back.success);
    assert_eq!(level, LogLevel::Error);
    assert_eq!(log.as_deref(), Some(""));
}
