use sodexo_webhook::config::{ConfigError, Setting};
use sodexo_webhook::parse_env;

fn setting(env: Option<&str>, file: Option<&str>) -> Setting {
    Setting { env: env.map(str::to_string), file: file.map(str::to_string) }
}

#[test]
fn environment_wins_over_file() {
    let configuration = parse_env(
        setting(Some("https://env/"), Some("https://file/")),
        setting(Some("https://hook.env/"), Some("https://hook.file/")),
        setting(Some("11:30"), Some("12:45")),
    )
    .unwrap();
    assert_eq!(configuration.source_url, "https://env/");
    assert_eq!(configuration.webhook_url, "https://hook.env/");
    assert_eq!(configuration.post_time, "11:30");
}

#[test]
fn file_is_the_fallback() {
    let configuration = parse_env(
        setting(None, Some("https://file/")),
        setting(Some("https://hook.env/"), None),
        setting(None, Some("12:45")),
    )
    .unwrap();
    assert_eq!(configuration.source_url, "https://file/");
    assert_eq!(configuration.webhook_url, "https://hook.env/");
    assert_eq!(configuration.post_time, "12:45");
}

#[test]
fn post_time_defaults_to_seven() {
    let configuration =
        parse_env(setting(Some("s"), None), setting(None, Some("w")), setting(None, None)).unwrap();
    assert_eq!(configuration.source_url, "s");
    assert_eq!(configuration.webhook_url, "w");
    assert_eq!(configuration.post_time, "07:00");
}

#[test]
fn urls_are_not_validated() {
    let configuration =
        parse_env(setting(Some("not a url"), None), setting(Some(""), None), setting(Some("whenever"), None))
            .unwrap();
    assert_eq!(configuration.source_url, "not a url");
    assert_eq!(configuration.webhook_url, "");
    assert_eq!(configuration.post_time, "whenever");
}

#[test]
fn missing_source_url_is_an_error() {
    let settled = parse_env(setting(None, None), setting(Some("w"), None), setting(Some("07:00"), None));
    assert_eq!(settled.err(), Some(ConfigError::MissingSourceUrl));
}

#[test]
fn missing_webhook_url_is_an_error() {
    let settled = parse_env(setting(Some("s"), None), setting(None, None), setting(Some("07:00"), None));
    assert_eq!(settled.err(), Some(ConfigError::MissingWebhookUrl));
}

#[test]
fn source_url_is_asked_for_first() {
    let settled = parse_env(setting(None, None), setting(None, None), setting(None, None));
    assert_eq!(settled.err(), Some(ConfigError::MissingSourceUrl));
}

#[test]
fn error_names_the_setting() {
    assert_eq!(ConfigError::MissingSourceUrl.setting_name(), "sodexo_url");
    assert_eq!(ConfigError::MissingWebhookUrl.setting_name(), "webhook_url");
}

#[test]
fn setting_value_and_is_missing() {
    assert!(setting(None, None).is_missing());
    assert!(!setting(Some("a"), None).is_missing());
    assert!(!setting(None, Some("b")).is_missing());
    assert_eq!(setting(Some("a"), Some("b")).value(), Some("a".to_string()));
    assert_eq!(setting(None, Some("b")).value(), Some("b".to_string()));
    assert_eq!(setting(None, None).value(), None);
}
