//! The job's settings: where each value comes from and which must be there.

use vstd::prelude::*;
use vstd::string::StringExecFns;
use crate::error::{JobError, MissingSetting};

verus! {

/// The completion endpoint used when none is given.
pub const DEFAULT_API_URL: &'static str = "https://api.openai.com/v1/chat/completions";

/// The model asked for when none is given.
pub const DEFAULT_MODEL: &'static str = "gpt-4o";

/// The language of the greeting when none is given.
pub const DEFAULT_LANGUAGE: &'static str = "Spanish";

/// The characters of an optional text.
pub open spec fn text_view(text: Option<String>) -> Option<Seq<char>> {
    match text {
        Some(t) => Some(t@),
        None => None,
    }
}

/// One setting as the operator supplied it: on the command line, in the
/// environment, both or neither.
#[derive(Clone, Debug, PartialEq, Eq)]
pub struct Setting {
    pub flag: Option<String>,
    pub env: Option<String>,
}

/// A setting as contracts see it.
pub struct SettingView {
    pub flag: Option<Seq<char>>,
    pub env: Option<Seq<char>>,
}

impl SettingView {
    /// The value that counts: the flag where there is one, else the
    /// environment's value, else none.
    pub open spec fn chosen(self) -> Option<Seq<char>> {
        if self.flag is Some {
            self.flag
        } else {
            self.env
        }
    }

    /// The value that counts, or `default` where there is none.
    pub open spec fn chosen_or(self, default: Seq<char>) -> Seq<char> {
        match self.chosen() {
            Some(value) => value,
            None => default,
        }
    }
}

impl View for Setting {
    type V = SettingView;

    open spec fn view(&self) -> SettingView {
        SettingView { flag: text_view(self.flag), env: text_view(self.env) }
    }
}

impl Setting {
    /// Picks the value that counts.
    pub fn pick(self) -> (value: Option<String>)
        ensures
            text_view(value) == self@.chosen(),
    {
        match self.flag {
            Some(flag) => Some(flag),
            None => self.env,
        }
    }

    /// Picks the value that counts, falling back on `default`.
    pub fn pick_or(self, default: &str) -> (value: String)
        ensures
            value@ == self@.chosen_or(default@),
    {
        match self.pick() {
            Some(value) => value,
            None => String::from_str(default),
        }
    }
}

/// All five settings as supplied.
#[derive(Clone, Debug, PartialEq, Eq)]
pub struct Settings {
    pub url: Setting,
    pub model: Setting,
    pub key: Setting,
    pub webhook: Setting,
    pub lang: Setting,
}

/// The settings as contracts see them.
pub struct SettingsView {
    pub url: SettingView,
    pub model: SettingView,
    pub key: SettingView,
    pub webhook: SettingView,
    pub lang: SettingView,
}

impl View for Settings {
    type V = SettingsView;

    open spec fn view(&self) -> SettingsView {
        SettingsView {
            url: self.url@,
            model: self.model@,
            key: self.key@,
            webhook: self.webhook@,
            lang: self.lang@,
        }
    }
}

/// What one job runs with.
#[derive(Clone, Debug, PartialEq, Eq)]
pub struct Config {
    pub api_url: String,
    pub model: String,
    pub api_key: String,
    pub webhook_url: String,
    pub lang: String,
}

/// A configuration as contracts see it.
pub struct ConfigView {
    pub api_url: Seq<char>,
    pub model: Seq<char>,
    pub api_key: Seq<char>,
    pub webhook_url: Seq<char>,
    pub lang: Seq<char>,
}

impl View for Config {
    type V = ConfigView;

    open spec fn view(&self) -> ConfigView {
        ConfigView {
            api_url: self.api_url@,
            model: self.model@,
            api_key: self.api_key@,
            webhook_url: self.webhook_url@,
            lang: self.lang@,
        }
    }
}

/// The configuration that the settings amount to. The credential and the
/// webhook URL have no default: without the first the credential is reported
/// missing, else without the second the webhook URL. The other three fall
/// back on their defaults.
pub open spec fn resolved(settings: SettingsView) -> Result<ConfigView, JobError> {
    if settings.key.chosen() is None {
        Err(JobError::Configuration(MissingSetting::Credential))
    } else if settings.webhook.chosen() is None {
        Err(JobError::Configuration(MissingSetting::WebhookUrl))
    } else {
        Ok(
            ConfigView {
                api_url: settings.url.chosen_or(DEFAULT_API_URL@),
                model: settings.model.chosen_or(DEFAULT_MODEL@),
                api_key: settings.key.chosen()->Some_0,
                webhook_url: settings.webhook.chosen()->Some_0,
                lang: settings.lang.chosen_or(DEFAULT_LANGUAGE@),
            },
        )
    }
}

/// The view of a resolution: the configuration's view, or the error as it is.
pub open spec fn config_result_view(result: Result<Config, JobError>) -> Result<
    ConfigView,
    JobError,
> {
    match result {
        Ok(config) => Ok(config@),
        Err(error) => Err(error),
    }
}

impl Config {
    /// Works out the configuration from the settings as supplied.
    pub fn resolve(settings: Settings) -> (result: Result<Config, JobError>)
        ensures
            config_result_view(result) == resolved(settings@),
    {
        let api_key = match settings.key.pick() {
            Some(key) => key,
            None => {
                return Err(JobError::Configuration(MissingSetting::Credential));
            },
        };
        let webhook_url = match settings.webhook.pick() {
            Some(url) => url,
            None => {
                return Err(JobError::Configuration(MissingSetting::WebhookUrl));
            },
        };
        Ok(
            Config {
                api_url: settings.url.pick_or(DEFAULT_API_URL),
                model: settings.model.pick_or(DEFAULT_MODEL),
                api_key,
                webhook_url,
                lang: settings.lang.pick_or(DEFAULT_LANGUAGE),
            },
        )
    }
}

} // verus!
