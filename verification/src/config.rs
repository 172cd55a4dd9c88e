//! The configuration of the mailer.

use vstd::prelude::*;

verus! {

/// The mail account that reports are sent from and the address they go to.
#[derive(Debug, Clone, PartialEq, Eq)]
pub struct Config {
    pub mailserver: String,
    pub port: u16,
    pub sendmail: String,
    pub password: String,
    pub recipient: String,
}

/// The mathematical value of a `Config`.
pub struct ConfigView {
    pub mailserver: Seq<char>,
    pub port: u16,
    pub sendmail: Seq<char>,
    pub password: Seq<char>,
    pub recipient: Seq<char>,
}

impl View for Config {
    type V = ConfigView;

    open spec fn view(&self) -> ConfigView {
        ConfigView {
            mailserver: self.mailserver@,
            port: self.port,
            sendmail: self.sendmail@,
            password: self.password@,
            recipient: self.recipient@,
        }
    }
}

impl ConfigView {
    /// Every text field holds something. A mail is only ever sent from a
    /// configuration that is complete.
    pub open spec fn is_complete(self) -> bool {
        &&& self.mailserver.len() > 0
        &&& self.sendmail.len() > 0
        &&& self.password.len() > 0
        &&& self.recipient.len() > 0
    }
}

/// The placeholder configuration that is written where none is found.
pub open spec fn placeholder_config() -> ConfigView {
    ConfigView {
        mailserver: "smtp.example.com"@,
        port: 587,
        sendmail: "youremail@example.com"@,
        password: "yourpassword"@,
        recipient: "john.doe@example.com"@,
    }
}

/// The placeholder configuration is complete.
pub proof fn lemma_placeholder_is_complete()
    ensures
        placeholder_config().is_complete(),
{
    reveal_strlit("smtp.example.com");
    reveal_strlit("youremail@example.com");
    reveal_strlit("yourpassword");
    reveal_strlit("john.doe@example.com");
}

impl Default for Config {
    /// The placeholder configuration.
    fn default() -> (config: Config)
        ensures
            config@ == placeholder_config(),
    {
        Config {
            mailserver: String::from_str("smtp.example.com"),
            port: 587,
            sendmail: String::from_str("youremail@example.com"),
            password: String::from_str("yourpassword"),
            recipient: String::from_str("john.doe@example.com"),
        }
    }
}

impl Config {
    /// Whether every text field holds something.
    pub fn is_complete(&self) -> (complete: bool)
        ensures
            complete == self@.is_complete(),
    {
        !self.mailserver.as_str().is_empty() && !self.sendmail.as_str().is_empty()
            && !self.password.as_str().is_empty() && !self.recipient.as_str().is_empty()
    }
}

/// What reading the configuration file gave.
#[derive(Debug, Clone, PartialEq, Eq)]
pub enum ConfigRead {
    /// There is no file, or it cannot be opened.
    Missing,
    /// There is a file, and it does not hold a configuration.
    Malformed,
    /// The file holds this configuration.
    Parsed(Config),
}

/// The mathematical value of a `ConfigRead`.
pub enum ConfigReadView {
    Missing,
    Malformed,
    Parsed(ConfigView),
}

impl View for ConfigRead {
    type V = ConfigReadView;

    open spec fn view(&self) -> ConfigReadView {
        match self {
            ConfigRead::Missing => ConfigReadView::Missing,
            ConfigRead::Malformed => ConfigReadView::Malformed,
            ConfigRead::Parsed(config) => ConfigReadView::Parsed(config@),
        }
    }
}

impl ConfigReadView {
    /// The configuration to run with. A missing file and a malformed one
    /// are told apart nowhere: neither gives a configuration.
    pub open spec fn loaded(self) -> Option<ConfigView> {
        match self {
            ConfigReadView::Parsed(config) => Some(config),
            _ => None,
        }
    }
}

/// The view of an optional configuration.
pub open spec fn option_config_view(config: Option<Config>) -> Option<ConfigView> {
    match config {
        Some(c) => Some(c@),
        None => None,
    }
}

/// The name of the configuration file.
pub fn config_file_name() -> (name: &'static str)
    ensures
        name@ == "config.json"@,
{
    "config.json"
}

/// The configuration to run with, given what reading the file gave: the
/// one that was parsed, field for field, or none where the file is missing
/// or malformed.
pub fn load_config(read: ConfigRead) -> (config: Option<Config>)
    ensures
        option_config_view(config) == read@.loaded(),
{
    match read {
        ConfigRead::Parsed(config) => Some(config),
        ConfigRead::Missing => None,
        ConfigRead::Malformed => None,
    }
}

} // verus!
