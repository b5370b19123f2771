//! Application and SMTP configuration values.

use vstd::prelude::*;

verus! {

/// Connection timeout applied when the configuration gives none, in seconds.
pub const DEFAULT_TIMEOUT_SECS: u64 = 15;

/// Settings of the SMTP relay that every worker connects to.
#[derive(Debug, Clone)]
pub struct SMTPConfig {
    pub host: String,
    pub port: String,
    pub login: String,
    pub password: String,
    /// Client identity announced to the server; empty means the default.
    pub hello: String,
    pub full_name: String,
    pub email_address: String,
    /// Connection timeout in seconds; `None` means the default.
    pub timeout: Option<u64>,
}

/// Settings of the whole service.
#[derive(Debug, Clone)]
pub struct AppConfig {
    pub component: String,
    pub project: String,
    pub web_root: String,
    pub main_directory: String,
    pub config_file: String,
    pub mail_worker: u16,
    pub smtp: SMTPConfig,
}

impl SMTPConfig {
    /// A configuration in which every text field is empty and no timeout is set.
    pub open spec fn is_blank(&self) -> bool {
        &&& self.host@.len() == 0
        &&& self.port@.len() == 0
        &&& self.login@.len() == 0
        &&& self.password@.len() == 0
        &&& self.hello@.len() == 0
        &&& self.full_name@.len() == 0
        &&& self.email_address@.len() == 0
        &&& self.timeout is None
    }

    pub fn new() -> (r: SMTPConfig)
        ensures
            r.is_blank(),
    {
        SMTPConfig {
            host: String::new(),
            port: String::new(),
            login: String::new(),
            password: String::new(),
            hello: String::new(),
            full_name: String::new(),
            email_address: String::new(),
            timeout: None,
        }
    }

    /// A copy of this configuration, field by field.
    pub fn duplicate(&self) -> (r: SMTPConfig)
        ensures
            r == *self,
    {
        SMTPConfig {
            host: self.host.clone(),
            port: self.port.clone(),
            login: self.login.clone(),
            password: self.password.clone(),
            hello: self.hello.clone(),
            full_name: self.full_name.clone(),
            email_address: self.email_address.clone(),
            timeout: self.timeout,
        }
    }
}

impl AppConfig {
    pub fn new() -> (r: AppConfig)
        ensures
            r.component@ == "unknown"@,
            r.project@ == "Actix Alerting Email"@,
            r.web_root@ == "/"@,
            r.main_directory@.len() == 0,
            r.config_file@.len() == 0,
            r.mail_worker == 2,
            r.smtp.is_blank(),
    {
        AppConfig {
            component: String::from_str("unknown"),
            project: String::from_str("Actix Alerting Email"),
            web_root: String::from_str("/"),
            main_directory: String::new(),
            config_file: String::new(),
            mail_worker: 2,
            smtp: SMTPConfig::new(),
        }
    }
}

impl AppConfig {
    /// A copy of this configuration, field by field.
    pub fn duplicate(&self) -> (r: AppConfig)
        ensures
            r == *self,
    {
        AppConfig {
            component: self.component.clone(),
            project: self.project.clone(),
            web_root: self.web_root.clone(),
            main_directory: self.main_directory.clone(),
            config_file: self.config_file.clone(),
            mail_worker: self.mail_worker,
            smtp: self.smtp.duplicate(),
        }
    }
}

impl Default for SMTPConfig {
    fn default() -> (r: SMTPConfig)
        ensures
            r.is_blank(),
    {
        SMTPConfig::new()
    }
}

impl Default for AppConfig {
    fn default() -> (r: AppConfig)
        ensures
            r.mail_worker == 2,
            r.smtp.is_blank(),
    {
        AppConfig::new()
    }
}

} // verus!
