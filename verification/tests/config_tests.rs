use autologinguet::config::{
    config_file_content, debounce_allows_save, default_message_config, get_config_path,
    is_config_complete,
    normalize_isp, unescape_template, validate_and_sync_auto_start_config,
    validate_message_config, ConfigData, MessageConfig,
};

#[test]
fn defaults_match_the_portal() {
    let config = ConfigData::default();
    assert_eq!(config.network.login_ip, "http://10.0.1.5/");
    assert_eq!(config.network.result_return, "\"result\":1");
    assert_eq!(config.network.signed_in_title, "注销页");
    assert_eq!(config.network.not_sign_in_title, "上网登录页");
    assert!(config.logging.enable_logging);
    assert_eq!(config.logging.log_file_path, "./AutoLogin.log");
    assert_eq!(config.logging.info_log_retention_days, 7);
    assert!(!config.settings.auto_start);
    assert_eq!(config.message.notify_text, "%1 %2\n%3 %4");
}

#[test]
fn campus_and_outside_templates_differ_in_the_flow_field() {
    let campus = MessageConfig::for_campus_network();
    let outside = MessageConfig::for_non_campus_network();
    assert!(campus.notify_text.contains("%4"));
    assert!(!outside.notify_text.contains("%4"));
    assert_eq!(campus.gui_text, outside.gui_text);
}

#[test]
fn campus_provider_name_normalises_to_empty() {
    assert_eq!(normalize_isp("校园网"), "");
    assert_eq!(normalize_isp("yd"), "yd");
    assert_eq!(normalize_isp(""), "");
}

#[test]
fn completeness_needs_account_and_password() {
    let mut config = ConfigData::default();
    assert!(!is_config_complete(&config));
    config.account.username = String::from("2021001");
    assert!(!is_config_complete(&config));
    config.account.encrypted_password = String::from("abc");
    assert!(is_config_complete(&config));
}

#[test]
fn template_validation_needs_one_placeholder() {
    let mut m = MessageConfig::for_campus_network();
    assert!(validate_message_config(&m));
    m.notify_text = String::from("static");
    m.gui_text = String::from("static");
    m.log_text = String::from("static");
    assert!(!validate_message_config(&m));
    m.log_text = String::from("elapsed: %3");
    assert!(validate_message_config(&m));
}

#[test]
fn config_path_is_fixed() {
    assert_eq!(get_config_path(), "config.toml");
}

#[test]
fn auto_start_flag_follows_the_registry() {
    let mut config = ConfigData::default();
    assert!(!validate_and_sync_auto_start_config(&mut config, false));
    assert!(validate_and_sync_auto_start_config(&mut config, true));
    assert!(config.settings.auto_start);
    assert!(!validate_and_sync_auto_start_config(&mut config, true));
}

#[test]
fn default_config_file_text_is_exact() {
    let text = config_file_content(&ConfigData::default());
    let expected = "[account]\nusername = \"\"\nencrypted_password = \"\"\nisp = \"\"\n\n\
[network]\nlogin_ip = \"http://10.0.1.5/\"\nresult_return = '\"result\":1'\n\
signed_in_title = \"注销页\"\nnot_sign_in_title = \"上网登录页\"\n\n\
[logging]\nenable_logging = true\nlog_file_path = \"./AutoLogin.log\"\n\
info_log_retention_days = 7\n\n[settings]\nauto_start = false\n\n\
[message]\nnotify_text = \"%1 %2\\n%3 %4\"\ngui_text = \"%1 %2\"\nlog_text = \"%1 %2 %3 %4\"\n";
    assert_eq!(text, expected);
}

#[test]
fn negative_retention_days_are_rendered_with_a_sign() {
    let mut config = ConfigData::default();
    config.logging.info_log_retention_days = -3;
    let text = config_file_content(&config);
    assert!(text.contains("info_log_retention_days = -3\n"));
}

#[test]
fn stored_templates_unescape_their_newlines() {
    assert_eq!(unescape_template("%1 %2\\n%3 %4"), "%1 %2\n%3 %4");
    assert_eq!(unescape_template("no escapes"), "no escapes");
    assert_eq!(unescape_template("\\n\\n"), "\n\n");
}

#[test]
fn missing_message_section_defaults_by_provider() {
    let campus = default_message_config("");
    assert_eq!(campus.notify_text, "%1 %2\n%3 %4");
    let outside = default_message_config("yd");
    assert_eq!(outside.notify_text, "%1 %2 %3");
}

#[test]
fn debounce_blocks_saves_inside_the_window() {
    assert!(debounce_allows_save(None, 0, 50));
    assert!(!debounce_allows_save(Some(100), 120, 50));
    assert!(debounce_allows_save(Some(100), 150, 50));
    assert!(!debounce_allows_save(Some(200), 100, 50));
}

#[test]
fn config_file_text_parses_back_as_toml() {
    let text = config_file_content(&ConfigData::default());
    let value: toml::Value = toml::from_str(&text).expect("the rendered file must be valid TOML");
    assert_eq!(
        value["network"]["login_ip"].as_str(),
        Some("http://10.0.1.5/")
    );
    assert_eq!(value["message"]["notify_text"].as_str(), Some("%1 %2\n%3 %4"));
    assert_eq!(value["logging"]["info_log_retention_days"].as_integer(), Some(7));
}
