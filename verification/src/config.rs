//! Configuration data: the account, portal, logging, settings and message
//! sections, their defaults, validation, and the rendering of a
//! configuration file's text.
//!
//! Reading and writing the file itself is the caller's work; this module
//! only decides what a configuration means and what its file text is.

use vstd::prelude::*;
use vstd::string::*;
use crate::numfmt::dec_digits;
use crate::text::{chars_vec, contains_seq, push_all, replace_all, replace_seq, str_contains, str_eq, string_from_chars};

verus! {

/// Account credentials and the chosen internet service provider.
#[derive(Debug, Clone)]
pub struct AccountConfig {
    /// Portal account name; digits only when set.
    pub username: String,
    /// Password, encrypted at rest by the caller's crypto collaborator.
    pub encrypted_password: String,
    /// Provider suffix; the empty string means the campus network itself.
    pub isp: String,
}

impl Default for AccountConfig {
    fn default() -> (r: Self)
        ensures
            r.username@ == Seq::<char>::empty(),
            r.encrypted_password@ == Seq::<char>::empty(),
            r.isp@ == Seq::<char>::empty(),
    {
        AccountConfig { username: String::new(), encrypted_password: String::new(), isp: String::new() }
    }
}

/// Portal addresses and the literal markers that classify its pages.
#[derive(Debug, Clone)]
pub struct NetworkConfig {
    /// Address of the captive portal's landing page.
    pub login_ip: String,
    /// Marker that a login response reports success.
    pub result_return: String,
    /// Page-title marker of the signed-in page.
    pub signed_in_title: String,
    /// Page-title marker of the not-signed-in page.
    pub not_sign_in_title: String,
}

impl Default for NetworkConfig {
    fn default() -> (r: Self)
        ensures
            r.login_ip@ == "http://10.0.1.5/"@,
            r.result_return@ == "\"result\":1"@,
            r.signed_in_title@ == "注销页"@,
            r.not_sign_in_title@ == "上网登录页"@,
    {
        NetworkConfig {
            login_ip: String::from_str("http://10.0.1.5/"),
            result_return: String::from_str("\"result\":1"),
            signed_in_title: String::from_str("注销页"),
            not_sign_in_title: String::from_str("上网登录页"),
        }
    }
}

/// Where and whether log lines are written, and how long they are kept.
#[derive(Debug, Clone)]
pub struct LoggingConfig {
    /// Whether logging is on at all.
    pub enable_logging: bool,
    /// Path of the log file.
    pub log_file_path: String,
    /// Days that informational log lines are kept.
    pub info_log_retention_days: i64,
}

impl Default for LoggingConfig {
    fn default() -> (r: Self)
        ensures
            r.enable_logging,
            r.log_file_path@ == "./AutoLogin.log"@,
            r.info_log_retention_days == 7,
    {
        LoggingConfig {
            enable_logging: true,
            log_file_path: String::from_str("./AutoLogin.log"),
            info_log_retention_days: 7,
        }
    }
}

/// Miscellaneous settings.
#[derive(Debug, Clone)]
pub struct SettingsConfig {
    /// Whether the tool is registered to start with the machine.
    pub auto_start: bool,
}

impl Default for SettingsConfig {
    fn default() -> (r: Self)
        ensures
            !r.auto_start,
    {
        SettingsConfig { auto_start: false }
    }
}

/// The three message templates; each may hold the placeholders `%1` (campus
/// text), `%2` (wide-area text), `%3` (elapsed text) and `%4` (quota text).
#[derive(Debug, Clone)]
pub struct MessageConfig {
    /// Template of the system notification.
    pub notify_text: String,
    /// Template of the user-interface message.
    pub gui_text: String,
    /// Template of the log line.
    pub log_text: String,
}

impl MessageConfig {
    /// The default templates for the campus provider, which display the
    /// remaining data quota.
    pub fn for_campus_network() -> (r: Self)
        ensures
            r.notify_text@ == "%1 %2\n%3 %4"@,
            r.gui_text@ == "%1 %2"@,
            r.log_text@ == "%1 %2 %3 %4"@,
    {
        MessageConfig {
            notify_text: String::from_str("%1 %2\n%3 %4"),
            gui_text: String::from_str("%1 %2"),
            log_text: String::from_str("%1 %2 %3 %4"),
        }
    }

    /// The default templates for an outside provider, which have no quota
    /// to display.
    pub fn for_non_campus_network() -> (r: Self)
        ensures
            r.notify_text@ == "%1 %2 %3"@,
            r.gui_text@ == "%1 %2"@,
            r.log_text@ == "%1 %2 %3"@,
    {
        MessageConfig {
            notify_text: String::from_str("%1 %2 %3"),
            gui_text: String::from_str("%1 %2"),
            log_text: String::from_str("%1 %2 %3"),
        }
    }
}

impl Default for MessageConfig {
    fn default() -> (r: Self)
        ensures
            r.notify_text@ == "%1 %2\n%3 %4"@,
            r.gui_text@ == "%1 %2"@,
            r.log_text@ == "%1 %2 %3 %4"@,
    {
        MessageConfig::for_campus_network()
    }
}

/// The whole configuration.
#[derive(Debug, Clone)]
pub struct ConfigData {
    /// Account credentials.
    pub account: AccountConfig,
    /// Portal addresses and markers.
    pub network: NetworkConfig,
    /// Logging choices.
    pub logging: LoggingConfig,
    /// Miscellaneous settings.
    pub settings: SettingsConfig,
    /// Message templates.
    pub message: MessageConfig,
}

impl Default for ConfigData {
    fn default() -> (r: Self)
        ensures
            r.account.username@ == Seq::<char>::empty(),
            r.account.encrypted_password@ == Seq::<char>::empty(),
            r.account.isp@ == Seq::<char>::empty(),
            r.network.login_ip@ == "http://10.0.1.5/"@,
            r.network.signed_in_title@ == "注销页"@,
            r.network.not_sign_in_title@ == "上网登录页"@,
            r.logging.enable_logging,
            r.logging.info_log_retention_days == 7,
            !r.settings.auto_start,
            r.message.notify_text@ == "%1 %2\n%3 %4"@,
            r.message.gui_text@ == "%1 %2"@,
            r.message.log_text@ == "%1 %2 %3 %4"@,
    {
        ConfigData {
            account: AccountConfig::default(),
            network: NetworkConfig::default(),
            logging: LoggingConfig::default(),
            settings: SettingsConfig::default(),
            message: MessageConfig::default(),
        }
    }
}

/// The provider value that callers store: the literal campus-network name
/// maps to the empty string, every other value stands as given.
pub open spec fn normalized_isp_spec(isp: Seq<char>) -> Seq<char> {
    if isp == "校园网"@ {
        Seq::empty()
    } else {
        isp
    }
}

/// Normalise a provider name for storage.
pub fn normalize_isp(isp: &str) -> (r: String)
    ensures
        r@ == normalized_isp_spec(isp@),
{
    if str_eq(isp, "校园网") {
        String::new()
    } else {
        String::from_str(isp)
    }
}

/// A configuration is complete when it names an account and holds an
/// encrypted password.
pub fn is_config_complete(config: &ConfigData) -> (r: bool)
    ensures
        r == (config.account.username@.len() > 0 && config.account.encrypted_password@.len() > 0),
{
    !config.account.username.as_str().is_empty()
        && !config.account.encrypted_password.as_str().is_empty()
}

/// Some template of `m` holds at least one placeholder.
pub open spec fn message_config_valid(m: MessageConfig) -> bool {
    template_has_placeholder(m.notify_text@) || template_has_placeholder(m.gui_text@)
        || template_has_placeholder(m.log_text@)
}

/// `t` holds at least one of the four placeholders.
pub open spec fn template_has_placeholder(t: Seq<char>) -> bool {
    contains_seq(t, "%1"@) || contains_seq(t, "%2"@) || contains_seq(t, "%3"@) || contains_seq(
        t,
        "%4"@,
    )
}

fn template_placeholder_check(t: &str) -> (r: bool)
    ensures
        r == template_has_placeholder(t@),
{
    str_contains(t, "%1") || str_contains(t, "%2") || str_contains(t, "%3") || str_contains(
        t,
        "%4",
    )
}

/// A message configuration is sound when at least one of its templates
/// holds at least one placeholder; all-static templates would display the
/// same text whatever happened.
pub fn validate_message_config(config: &MessageConfig) -> (r: bool)
    ensures
        r == message_config_valid(*config),
{
    template_placeholder_check(config.notify_text.as_str()) || template_placeholder_check(
        config.gui_text.as_str(),
    ) || template_placeholder_check(config.log_text.as_str())
}

/// A stored template read back into its live form: every backslash-`n`
/// pair stands for a newline.
pub fn unescape_template(t: &str) -> (r: String)
    ensures
        r@ == replace_seq(t@, "\\n"@, "\n"@),
{
    let v = chars_vec(t);
    let needle = chars_vec("\\n");
    let repl = chars_vec("\n");
    proof {
        reveal_strlit("\\n");
    }
    let out = replace_all(&v, &needle, &repl);
    string_from_chars(&out)
}

/// The message templates a configuration without any starts from: the
/// campus provider's show the quota field, an outside provider's do not.
pub fn default_message_config(isp: &str) -> (r: MessageConfig)
    ensures
        isp@.len() == 0 ==> r.notify_text@ == "%1 %2\n%3 %4"@ && r.gui_text@ == "%1 %2"@
            && r.log_text@ == "%1 %2 %3 %4"@,
        isp@.len() > 0 ==> r.notify_text@ == "%1 %2 %3"@ && r.gui_text@ == "%1 %2"@
            && r.log_text@ == "%1 %2 %3"@,
{
    if isp.is_empty() {
        MessageConfig::for_campus_network()
    } else {
        MessageConfig::for_non_campus_network()
    }
}

/// Whether a debounced save may write now: always on the first save, and
/// afterwards only once the delay has passed since the last write. Times
/// are in hundredths of a second on one clock.
pub fn debounce_allows_save(
    last_save_centis: Option<u64>,
    now_centis: u64,
    delay_centis: u64,
) -> (r: bool)
    ensures
        r == (match last_save_centis {
            None => true,
            Some(t) => now_centis >= t + delay_centis,
        }),
{
    match last_save_centis {
        None => true,
        Some(t) => now_centis >= t && now_centis - t >= delay_centis,
    }
}

/// Path of the configuration file, relative to the working directory.
pub fn get_config_path() -> (r: String)
    ensures
        r@ == "config.toml"@,
{
    String::from_str("config.toml")
}

/// Bring the stored auto-start flag in line with what the system's
/// registration actually says; reports whether the configuration changed.
pub fn validate_and_sync_auto_start_config(config: &mut ConfigData, registry_exists: bool) -> (r:
    bool)
    ensures
        final(config).settings.auto_start == registry_exists,
        final(config).account == old(config).account,
        final(config).network == old(config).network,
        final(config).logging == old(config).logging,
        final(config).message == old(config).message,
        r == (old(config).settings.auto_start != registry_exists),
{
    if config.settings.auto_start != registry_exists {
        config.settings.auto_start = registry_exists;
        true
    } else {
        false
    }
}

/// The decimal rendering of a signed day count.
pub open spec fn i64_dec_chars(d: int) -> Seq<char> {
    if d < 0 {
        seq!['-'] + dec_digits((-d) as nat)
    } else {
        dec_digits(d as nat)
    }
}

fn push_i64_chars(d: i64, out: &mut Vec<char>)
    ensures
        final(out)@ == old(out)@ + i64_dec_chars(d as int),
{
    if d < 0 {
        out.push('-');
        let mag: u64 = if d == i64::MIN {
            9223372036854775808u64
        } else {
            (-d) as u64
        };
        assert(mag == -(d as int));
        crate::numfmt::push_dec_digits(mag, out);
        assert(out@ =~= old(out)@ + i64_dec_chars(d as int));
    } else {
        crate::numfmt::push_dec_digits(d as u64, out);
    }
}

/// The rendering of a boolean in the configuration file.
pub open spec fn bool_chars(b: bool) -> Seq<char> {
    if b {
        "true"@
    } else {
        "false"@
    }
}

fn push_bool_chars(b: bool, out: &mut Vec<char>)
    ensures
        final(out)@ == old(out)@ + bool_chars(b),
{
    let word = if b {
        "true"
    } else {
        "false"
    };
    let v = chars_vec(word);
    push_all(out, &v);
}

/// A template as it stands in the file: every newline written as the two
/// characters backslash and `n`.
pub open spec fn escaped_template(t: Seq<char>) -> Seq<char> {
    replace_seq(t, "\n"@, "\\n"@)
}

/// The full text of the configuration file for `c`.
pub open spec fn config_file_text(c: ConfigData) -> Seq<char> {
    "[account]\nusername = \""@ + c.account.username@ + "\"\nencrypted_password = \""@
        + c.account.encrypted_password@ + "\"\nisp = \""@ + c.account.isp@
        + "\"\n\n[network]\nlogin_ip = \""@ + c.network.login_ip@ + "\"\nresult_return = '"@
        + c.network.result_return@ + "'\nsigned_in_title = \""@ + c.network.signed_in_title@
        + "\"\nnot_sign_in_title = \""@ + c.network.not_sign_in_title@
        + "\"\n\n[logging]\nenable_logging = "@ + bool_chars(c.logging.enable_logging)
        + "\nlog_file_path = \""@ + c.logging.log_file_path@ + "\"\ninfo_log_retention_days = "@
        + i64_dec_chars(c.logging.info_log_retention_days as int)
        + "\n\n[settings]\nauto_start = "@ + bool_chars(c.settings.auto_start)
        + "\n\n[message]\nnotify_text = \""@ + escaped_template(c.message.notify_text@)
        + "\"\ngui_text = \""@ + escaped_template(c.message.gui_text@) + "\"\nlog_text = \""@
        + escaped_template(c.message.log_text@) + "\"\n"@
}

fn push_str_chars(s: &str, out: &mut Vec<char>)
    ensures
        final(out)@ == old(out)@ + s@,
{
    let v = chars_vec(s);
    push_all(out, &v);
}

fn push_escaped_template(t: &str, out: &mut Vec<char>)
    ensures
        final(out)@ == old(out)@ + escaped_template(t@),
{
    let v = chars_vec(t);
    let needle = chars_vec("\n");
    let repl = chars_vec("\\n");
    proof {
        reveal_strlit("\n");
    }
    let escaped = replace_all(&v, &needle, &repl);
    push_all(out, &escaped);
}

/// Render the configuration file's text for `config`.
///
/// The caller writes this text to the configuration path unchanged; the
/// message templates have their newlines escaped so that each value stays on
/// one line.
pub fn config_file_content(config: &ConfigData) -> (r: String)
    ensures
        r@ == config_file_text(*config),
{
    let mut out: Vec<char> = Vec::new();
    push_str_chars("[account]\nusername = \"", &mut out);
    push_str_chars(config.account.username.as_str(), &mut out);
    push_str_chars("\"\nencrypted_password = \"", &mut out);
    push_str_chars(config.account.encrypted_password.as_str(), &mut out);
    push_str_chars("\"\nisp = \"", &mut out);
    push_str_chars(config.account.isp.as_str(), &mut out);
    push_str_chars("\"\n\n[network]\nlogin_ip = \"", &mut out);
    push_str_chars(config.network.login_ip.as_str(), &mut out);
    push_str_chars("\"\nresult_return = '", &mut out);
    push_str_chars(config.network.result_return.as_str(), &mut out);
    push_str_chars("'\nsigned_in_title = \"", &mut out);
    push_str_chars(config.network.signed_in_title.as_str(), &mut out);
    push_str_chars("\"\nnot_sign_in_title = \"", &mut out);
    push_str_chars(config.network.not_sign_in_title.as_str(), &mut out);
    push_str_chars("\"\n\n[logging]\nenable_logging = ", &mut out);
    push_bool_chars(config.logging.enable_logging, &mut out);
    push_str_chars("\nlog_file_path = \"", &mut out);
    push_str_chars(config.logging.log_file_path.as_str(), &mut out);
    push_str_chars("\"\ninfo_log_retention_days = ", &mut out);
    push_i64_chars(config.logging.info_log_retention_days, &mut out);
    push_str_chars("\n\n[settings]\nauto_start = ", &mut out);
    push_bool_chars(config.settings.auto_start, &mut out);
    push_str_chars("\n\n[message]\nnotify_text = \"", &mut out);
    push_escaped_template(config.message.notify_text.as_str(), &mut out);
    push_str_chars("\"\ngui_text = \"", &mut out);
    push_escaped_template(config.message.gui_text.as_str(), &mut out);
    push_str_chars("\"\nlog_text = \"", &mut out);
    push_escaped_template(config.message.log_text.as_str(), &mut out);
    push_str_chars("\"\n", &mut out);
    assert(out@ =~= config_file_text(*config));
    string_from_chars(&out)
}

} // verus!
