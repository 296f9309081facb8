use good_morning::config::{
    Config, Setting, Settings, DEFAULT_API_URL, DEFAULT_LANGUAGE, DEFAULT_MODEL,
};
use good_morning::error::{JobError, MissingSetting};

fn setting(flag: Option<&str>, env: Option<&str>) -> Setting {
    Setting { flag: flag.map(|s| s.to_string()), env: env.map(|s| s.to_string()) }
}

fn absent() -> Setting {
    setting(None, None)
}

#[test]
fn flag_wins_over_environment() {
    assert_eq!(setting(Some("flag"), Some("env")).pick(), Some("flag".to_string()));
    assert_eq!(setting(Some("flag"), None).pick(), Some("flag".to_string()));
    assert_eq!(setting(None, Some("env")).pick(), Some("env".to_string()));
    assert_eq!(setting(None, None).pick(), None);
}

#[test]
fn default_comes_last() {
    assert_eq!(setting(Some("flag"), Some("env")).pick_or("default"), "flag");
    assert_eq!(setting(None, Some("env")).pick_or("default"), "env");
    assert_eq!(setting(None, None).pick_or("default"), "default");
}

#[test]
fn empty_flag_still_counts_as_given() {
    assert_eq!(setting(Some(""), Some("env")).pick_or("default"), "");
}

#[test]
fn defaults_fill_what_is_not_given() {
    let settings = Settings {
        url: absent(),
        model: absent(),
        key: setting(None, Some("k")),
        webhook: setting(Some("https://hook"), None),
        lang: absent(),
    };
    let config = Config::resolve(settings).unwrap();
    assert_eq!(config.api_url, "https://api.openai.com/v1/chat/completions");
    assert_eq!(config.api_url, DEFAULT_API_URL);
    assert_eq!(config.model, "gpt-4o");
    assert_eq!(config.model, DEFAULT_MODEL);
    assert_eq!(config.api_key, "k");
    assert_eq!(config.webhook_url, "https://hook");
    assert_eq!(config.lang, "Spanish");
    assert_eq!(config.lang, DEFAULT_LANGUAGE);
}

#[test]
fn given_values_are_kept() {
    let settings = Settings {
        url: setting(Some("https://flag-url"), Some("https://env-url")),
        model: setting(None, Some("env-model")),
        key: setting(Some("flag-key"), Some("env-key")),
        webhook: setting(None, Some("https://env-hook")),
        lang: setting(Some("French"), None),
    };
    assert_eq!(
        Config::resolve(settings),
        Ok(Config {
            api_url: "https://flag-url".to_string(),
            model: "env-model".to_string(),
            api_key: "flag-key".to_string(),
            webhook_url: "https://env-hook".to_string(),
            lang: "French".to_string(),
        })
    );
}

#[test]
fn missing_credential_is_reported() {
    let settings = Settings {
        url: absent(),
        model: absent(),
        key: absent(),
        webhook: setting(Some("https://hook"), None),
        lang: absent(),
    };
    assert_eq!(
        Config::resolve(settings),
        Err(JobError::Configuration(MissingSetting::Credential))
    );
}

#[test]
fn missing_webhook_is_reported() {
    let settings = Settings {
        url: absent(),
        model: absent(),
        key: setting(Some("k"), None),
        webhook: absent(),
        lang: absent(),
    };
    assert_eq!(
        Config::resolve(settings),
        Err(JobError::Configuration(MissingSetting::WebhookUrl))
    );
}

#[test]
fn missing_credential_is_reported_first() {
    let settings =
        Settings { url: absent(), model: absent(), key: absent(), webhook: absent(), lang: absent() };
    assert_eq!(
        Config::resolve(settings),
        Err(JobError::Configuration(MissingSetting::Credential))
    );
}
