use autologinguet::config::{ConfigData, LoggingConfig};
use autologinguet::dto::{GuiConfigDto, GuiConfigWithData};
use autologinguet::logging::{format_log_line, LogManager};
use autologinguet::numfmt::u64_dec_chars;
use autologinguet::text::{str_contains, str_eq, string_from_chars};

#[test]
fn decimal_rendering_is_exact() {
    assert_eq!(string_from_chars(&u64_dec_chars(0)), "0");
    assert_eq!(string_from_chars(&u64_dec_chars(7)), "7");
    assert_eq!(string_from_chars(&u64_dec_chars(1234567890)), "1234567890");
    assert_eq!(
        string_from_chars(&u64_dec_chars(u64::MAX)),
        "18446744073709551615"
    );
}

#[test]
fn substring_search_handles_multibyte_text() {
    assert!(str_contains("前缀注销页后缀", "注销页"));
    assert!(!str_contains("前缀注销后缀", "注销页"));
    assert!(str_contains("anything", ""));
    assert!(!str_contains("", "x"));
}

#[test]
fn string_equality_is_character_wise() {
    assert!(str_eq("校园网", "校园网"));
    assert!(!str_eq("校园网", "校园"));
    assert!(!str_eq("a", "b"));
    assert!(str_eq("", ""));
}

#[test]
fn bracketed_log_lines_are_exact() {
    assert_eq!(
        format_log_line("2024-01-01 10:00:00", "INFO", "connected"),
        "[2024-01-01 10:00:00][INFO] connected\n"
    );
}

#[test]
fn log_manager_honours_the_logging_switch() {
    let on = LogManager::new(LoggingConfig::default());
    assert_eq!(
        on.format_entry("2024-01-01 10:00:00", "ERROR", "boom").as_deref(),
        Some("2024-01-01 10:00:00 - ERROR - boom\r\n")
    );
    let mut config = LoggingConfig::default();
    config.enable_logging = false;
    let off = LogManager::new(config);
    assert!(off.format_entry("2024-01-01 10:00:00", "INFO", "x").is_none());
}

#[test]
fn interface_view_names_the_campus_provider() {
    let mut config = ConfigData::default();
    config.account.username = String::from("2021001");
    config.account.encrypted_password = String::from("sealed");
    let dto = GuiConfigDto::from_config(&config);
    assert_eq!(dto.username, "2021001");
    assert_eq!(dto.password, "");
    assert_eq!(dto.encrypted_password, "sealed");
    assert_eq!(dto.isp, "校园网");
    config.account.isp = String::from("yd");
    assert_eq!(GuiConfigDto::from_config(&config).isp, "yd");
}

#[test]
fn interface_edit_applies_back_to_the_configuration() {
    let existing = ConfigData::default();
    let dto = GuiConfigDto::new(
        String::from("2021002"),
        String::from("newpass"),
        String::from("校园网"),
        true,
    );
    let merged = dto.apply_to_config(&existing, String::from("sealed-anew"));
    assert_eq!(merged.account.username, "2021002");
    assert_eq!(merged.account.encrypted_password, "sealed-anew");
    assert_eq!(merged.account.isp, "");
    assert!(merged.settings.auto_start);
    assert_eq!(merged.network.login_ip, existing.network.login_ip);
    assert_eq!(merged.message.notify_text, existing.message.notify_text);
}

#[test]
fn wrapped_configuration_keeps_the_stored_form() {
    let mut config = ConfigData::default();
    config.account.encrypted_password = String::from("sealed");
    let wrapped = GuiConfigWithData::from_config(config);
    assert_eq!(wrapped.encrypted_password, "sealed");
    assert_eq!(wrapped.gui_config.encrypted_password, "sealed");
    assert_eq!(wrapped.full_config.account.encrypted_password, "sealed");
}
