//! The settings of the process: where each one is taken from, and which of
//! them must be there.

use vstd::prelude::*;

verus! {

/// What was found for one setting, in the process environment and in the
/// environment file.
pub struct Setting {
    /// The value in the process environment.
    pub env: Option<String>,
    /// The value in the environment file.
    pub file: Option<String>,
}

/// The settings that the process runs with.
pub struct Configuration {
    /// The address of the menu source; the date of the day is put behind it.
    pub source_url: String,
    /// The address of the webhook that the message is posted to.
    pub webhook_url: String,
    /// The time of day of the post, as it is written in the setting.
    pub post_time: String,
}

/// A required setting that is found nowhere.
#[derive(Clone, Copy, Debug, PartialEq, Eq, Structural)]
pub enum ConfigError {
    /// The address of the menu source is set nowhere.
    MissingSourceUrl,
    /// The address of the webhook is set nowhere.
    MissingWebhookUrl,
}

/// The post time that is taken where none is set.
pub open spec fn default_post_time() -> Seq<char> {
    "07:00"@
}

impl Setting {
    /// The value that counts: that of the environment where there is one,
    /// else that of the file.
    pub open spec fn found(self) -> Option<Seq<char>> {
        match self.env {
            Some(value) => Some(value@),
            None => match self.file {
                Some(value) => Some(value@),
                None => None,
            },
        }
    }

    /// Whether the setting is found neither in the environment nor in the
    /// file.
    pub fn is_missing(&self) -> (missing: bool)
        ensures
            missing == (self.found() is None),
    {
        self.env.is_none() && self.file.is_none()
    }

    /// The value that counts, if there is one.
    pub fn value(self) -> (value: Option<String>)
        ensures
            match value {
                Some(text) => self.found() == Some(text@),
                None => self.found() is None,
            },
    {
        match self.env {
            Some(text) => Some(text),
            None => self.file,
        }
    }
}

impl ConfigError {
    /// The name under which the missing setting is looked up.
    pub fn setting_name(&self) -> (name: &'static str)
        ensures
            name@ == match *self {
                ConfigError::MissingSourceUrl => "sodexo_url"@,
                ConfigError::MissingWebhookUrl => "webhook_url"@,
            },
    {
        match self {
            ConfigError::MissingSourceUrl => "sodexo_url",
            ConfigError::MissingWebhookUrl => "webhook_url",
        }
    }
}

/// Settles the configuration from what was found for the three settings.
///
/// Both addresses are required, and the source address is asked for first.
/// A post time that is found nowhere is `07:00`.
pub fn parse_env(sodexo_url: Setting, webhook_url: Setting, post_time: Setting) -> (settled: Result<
    Configuration,
    ConfigError,
>)
    ensures
        match settled {
            Ok(configuration) => {
                &&& sodexo_url.found() == Some(configuration.source_url@)
                &&& webhook_url.found() == Some(configuration.webhook_url@)
                &&& configuration.post_time@ == match post_time.found() {
                    Some(time) => time,
                    None => default_post_time(),
                }
            },
            Err(ConfigError::MissingSourceUrl) => sodexo_url.found() is None,
            Err(ConfigError::MissingWebhookUrl) => {
                &&& sodexo_url.found() is Some
                &&& webhook_url.found() is None
            },
        },
{
    let source_url = match sodexo_url.value() {
        Some(url) => url,
        None => return Err(ConfigError::MissingSourceUrl),
    };
    let webhook_url = match webhook_url.value() {
        Some(url) => url,
        None => return Err(ConfigError::MissingWebhookUrl),
    };
    let post_time = match post_time.value() {
        Some(time) => time,
        None => "07:00".to_string(),
    };
    Ok(Configuration { source_url, webhook_url, post_time })
}

} // verus!
