//! Plain data carried between the interface layer and the core.

use vstd::prelude::*;
use vstd::string::*;
use crate::config::{normalize_isp, normalized_isp_spec, AccountConfig, ConfigData, SettingsConfig};

verus! {

/// The configuration as the interface edits it: the password in the clear
/// only while the user is typing a new one.
#[derive(Debug, Clone)]
pub struct GuiConfigDto {
    /// Account name.
    pub username: String,
    /// A newly typed password, or empty to keep the stored one.
    pub password: String,
    /// The stored, encrypted password.
    pub encrypted_password: String,
    /// Displayed provider name; the campus provider is shown by name, not
    /// as the empty string.
    pub isp: String,
    /// Whether the tool starts with the machine.
    pub auto_start: bool,
}

impl GuiConfigDto {
    /// A fresh interface configuration with no stored password.
    pub fn new(username: String, password: String, isp: String, auto_start: bool) -> (r: Self)
        ensures
            r.username == username,
            r.password == password,
            r.encrypted_password@ == Seq::<char>::empty(),
            r.isp == isp,
            r.auto_start == auto_start,
    {
        GuiConfigDto { username, password, encrypted_password: String::new(), isp, auto_start }
    }

    /// The interface view of a stored configuration: no password in the
    /// clear, and the campus provider displayed under its name.
    pub fn from_config(config: &ConfigData) -> (r: Self)
        ensures
            r.username@ == config.account.username@,
            r.password@ == Seq::<char>::empty(),
            r.encrypted_password@ == config.account.encrypted_password@,
            config.account.isp@.len() == 0 ==> r.isp@ == "校园网"@,
            config.account.isp@.len() > 0 ==> r.isp@ == config.account.isp@,
            r.auto_start == config.settings.auto_start,
    {
        GuiConfigDto {
            username: config.account.username.clone(),
            password: String::new(),
            encrypted_password: config.account.encrypted_password.clone(),
            isp: if config.account.isp.as_str().is_empty() {
                String::from_str("校园网")
            } else {
                config.account.isp.clone()
            },
            auto_start: config.settings.auto_start,
        }
    }

    /// The stored configuration this edit stands for. The caller supplies
    /// the encrypted password — freshly encrypted when a new one was typed,
    /// else the stored one — since encryption itself is the crypto
    /// collaborator's work.
    pub fn apply_to_config(&self, existing: &ConfigData, encrypted_password: String) -> (r:
        ConfigData)
        ensures
            r.account.username@ == self.username@,
            r.account.encrypted_password == encrypted_password,
            r.account.isp@ == normalized_isp_spec(self.isp@),
            r.settings.auto_start == self.auto_start,
            r.network == existing.network,
            r.logging == existing.logging,
            r.message == existing.message,
    {
        ConfigData {
            account: AccountConfig {
                username: self.username.clone(),
                encrypted_password,
                isp: normalize_isp(self.isp.as_str()),
            },
            network: crate::config::NetworkConfig {
                login_ip: existing.network.login_ip.clone(),
                result_return: existing.network.result_return.clone(),
                signed_in_title: existing.network.signed_in_title.clone(),
                not_sign_in_title: existing.network.not_sign_in_title.clone(),
            },
            logging: crate::config::LoggingConfig {
                enable_logging: existing.logging.enable_logging,
                log_file_path: existing.logging.log_file_path.clone(),
                info_log_retention_days: existing.logging.info_log_retention_days,
            },
            settings: SettingsConfig { auto_start: self.auto_start },
            message: crate::config::MessageConfig {
                notify_text: existing.message.notify_text.clone(),
                gui_text: existing.message.gui_text.clone(),
                log_text: existing.message.log_text.clone(),
            },
        }
    }
}

/// The interface configuration together with the stored form it came from.
#[derive(Debug, Clone)]
pub struct GuiConfigWithData {
    /// The editable interface view.
    pub gui_config: GuiConfigDto,
    /// The stored, encrypted password.
    pub encrypted_password: String,
    /// The stored configuration itself.
    pub full_config: ConfigData,
}

impl GuiConfigWithData {
    /// Wrap a stored configuration for the interface.
    pub fn from_config(config: ConfigData) -> (r: Self)
        ensures
            r.gui_config.username@ == config.account.username@,
            r.gui_config.password@ == Seq::<char>::empty(),
            r.gui_config.encrypted_password@ == config.account.encrypted_password@,
            r.encrypted_password@ == config.account.encrypted_password@,
            r.full_config == config,
    {
        let gui_config = GuiConfigDto::from_config(&config);
        let encrypted_password = config.account.encrypted_password.clone();
        GuiConfigWithData { gui_config, encrypted_password, full_config: config }
    }
}

} // verus!
