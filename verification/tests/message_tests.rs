use autologinguet::config::MessageConfig;
use autologinguet::message::LogLevel;
use autologinguet::message::{format_flow_info, MessageBuilder, MessageCenter};
use autologinguet::status::{CampusNetworkStatus, WanStatus};
use autologinguet::text::string_from_chars;

#[test]
fn status_texts_are_fixed() {
    assert_eq!(CampusNetworkStatus::AlreadyLoggedIn.to_message(), "已登录校园网");
    assert_eq!(CampusNetworkStatus::NotLoggedIn.to_message(), "未登录校园网");
    assert_eq!(CampusNetworkStatus::LoginSuccess.to_message(), "登录校园网成功！");
    assert_eq!(WanStatus::Connected.to_message(), "已接入广域网");
    assert_eq!(WanStatus::Disconnected.to_message(), "无法访问广域网");
    assert_eq!(WanStatus::CheckFailed.to_message(), "广域网检查失败");
}

#[test]
fn substitution_collapses_blank_wan_segment() {
    let out = MessageBuilder::replace_placeholders(
        "%1 %2\n%3 %4",
        "已登录校园网",
        "",
        "用时1.23秒",
        "",
        true,
    );
    assert_eq!(out, "已登录校园网\n用时1.23秒");
}

#[test]
fn substitution_is_idempotent_on_its_own_output() {
    let once = MessageBuilder::replace_placeholders(
        "%1 %2\n%3 %4",
        "已登录校园网",
        "",
        "用时1.23秒",
        "",
        true,
    );
    let twice = MessageBuilder::replace_placeholders(&once, "已登录校园网", "", "用时1.23秒", "", true);
    assert_eq!(once, twice);
}

#[test]
fn log_bound_text_flattens_newlines() {
    let out = MessageBuilder::replace_placeholders("%1 %2\n%3 %4", "A", "B", "C", "D", false);
    assert_eq!(out, "A B C D");
}

#[test]
fn interior_space_runs_collapse_to_one() {
    let out = MessageBuilder::replace_placeholders("%1 %2 %3 %4", "A", "", "C", "", true);
    assert_eq!(out, "A C");
}

#[test]
fn builder_composes_all_three_templates() {
    let result = MessageBuilder::new(String::new())
        .with_campus_status(CampusNetworkStatus::AlreadyLoggedIn)
        .with_elapsed_time(123)
        .build(&MessageConfig::for_campus_network());
    assert_eq!(result.notify_message, "已登录校园网\n用时1.23秒");
    assert_eq!(result.gui_message, "已登录校园网");
    assert_eq!(result.log_message, "已登录校园网 用时1.23秒");
}

#[test]
fn check_failed_wan_is_suppressed() {
    let result = MessageBuilder::new(String::new())
        .with_campus_status(CampusNetworkStatus::NotLoggedIn)
        .with_wan_status(WanStatus::CheckFailed)
        .with_elapsed_time(50)
        .build(&MessageConfig::for_non_campus_network());
    assert_eq!(result.gui_message, "未登录校园网");
    assert_eq!(result.notify_message, "未登录校园网 用时0.50秒");
}

#[test]
fn non_campus_provider_hides_flow_info() {
    let result = MessageBuilder::new(String::from("yd"))
        .with_campus_status(CampusNetworkStatus::LoginSuccess)
        .with_wan_status(WanStatus::Connected)
        .with_elapsed_time(100)
        .with_flow_info(51200)
        .build(&MessageConfig::for_campus_network());
    assert_eq!(result.notify_message, "登录校园网成功！ 已接入广域网\n用时1.00秒");
}

#[test]
fn zero_elapsed_time_still_shows_two_decimals() {
    let result = MessageBuilder::new(String::new())
        .with_campus_status(CampusNetworkStatus::NotLoggedIn)
        .with_elapsed_time(0)
        .build(&MessageConfig::for_non_campus_network());
    assert_eq!(result.notify_message, "未登录校园网 用时0.00秒");
}

#[test]
fn flow_text_picks_its_unit() {
    assert_eq!(string_from_chars(&format_flow_info(0)), "流量耗尽，限速不限量生效");
    assert_eq!(string_from_chars(&format_flow_info(51200)), "剩余流量512.00MB");
    assert_eq!(string_from_chars(&format_flow_info(204800)), "剩余流量2.00GB");
    assert_eq!(string_from_chars(&format_flow_info(102400)), "剩余流量1.00GB");
    assert_eq!(string_from_chars(&format_flow_info(102399)), "剩余流量1023.99MB");
    assert_eq!(string_from_chars(&format_flow_info(1)), "剩余流量0.01MB");
}

#[test]
fn center_without_config_gives_bare_text() {
    let center = MessageCenter::new(None);
    let plan = center.handle_network_status(
        CampusNetworkStatus::NotLoggedIn,
        WanStatus::Disconnected,
        100,
        true,
        true,
        None,
    );
    assert_eq!(plan.gui_message, "未登录校园网 无法访问广域网");
    assert!(plan.log_line.is_none());
    assert!(plan.notification.is_none());
}

#[test]
fn center_with_config_owes_log_and_notification_on_request() {
    let config = autologinguet::config::ConfigData::default();
    let center = MessageCenter::new(Some(config));
    let plan = center.handle_network_status(
        CampusNetworkStatus::AlreadyLoggedIn,
        WanStatus::Connected,
        123,
        true,
        true,
        None,
    );
    assert_eq!(plan.gui_message, "已登录校园网 已接入广域网");
    assert_eq!(plan.log_line.as_deref(), Some("已登录校园网 已接入广域网 用时1.23秒"));
    assert_eq!(plan.notification.as_deref(), Some("已登录校园网 已接入广域网\n用时1.23秒"));

    let quiet = center.handle_network_status(
        CampusNetworkStatus::AlreadyLoggedIn,
        WanStatus::Connected,
        123,
        false,
        false,
        None,
    );
    assert!(quiet.log_line.is_none());
    assert!(quiet.notification.is_none());
}

#[test]
fn login_report_level_follows_success() {
    let config = autologinguet::config::ConfigData::default();
    let center = MessageCenter::new(Some(config));
    let ok = center.handle_login_result(
        CampusNetworkStatus::LoginSuccess,
        WanStatus::Connected,
        100,
        true,
        None,
    );
    assert_eq!(ok.log_level, LogLevel::Info);
    assert!(ok.log_line.is_some());
    assert!(ok.notification.is_some());
    let bad = center.handle_login_result(
        CampusNetworkStatus::NotLoggedIn,
        WanStatus::Disconnected,
        100,
        false,
        None,
    );
    assert_eq!(bad.log_level, LogLevel::Error);
}
