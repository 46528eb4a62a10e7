use config::{Config, Environment, File, FileFormat};
use multi_arch_container_rust::settings::{
    load, unknown, AppConfig, AppEntries, LogFormat, Settings, SettingsEntries, SettingsError,
    ValueShape, UNKNOWN,
};

/// A configuration layered as the program builds it: the JSON file (if any), then the given
/// environment variables with `__` separating sections.
fn layered(file: Option<&str>, env: &[(&str, &str)]) -> Config {
    let mut builder = Config::builder();
    if let Some(json) = file {
        builder = builder.add_source(File::from_str(json, FileFormat::Json));
    }
    let vars: config::Map<String, String> = env
        .iter()
        .map(|(k, v)| (k.to_string(), v.to_string()))
        .collect();
    builder
        .add_source(Environment::default().separator("__").source(Some(vars)))
        .build()
        .expect("configuration should build")
}

fn settings_from_json(json: &str) -> Result<Settings, SettingsError> {
    let config = Config::builder()
        .add_source(File::from_str(json, FileFormat::Json))
        .build()
        .expect("configuration should build");
    Settings::from_config(&config)
}

#[test]
fn defaults_are_populated() {
    let app = AppConfig::default();

    assert_eq!(app.interval_seconds, 3);
    assert_eq!(app.log_format, LogFormat::Text);
    assert!(!app.greeting.is_empty());
}

#[test]
fn partial_configuration_falls_back_to_defaults() {
    let config = Config::builder()
        .add_source(File::from_str(
            r#"{ "app": { "greeting": "hello from a test" } }"#,
            FileFormat::Json,
        ))
        .build()
        .expect("configuration should build");
    let settings = Settings::from_config(&config).expect("configuration should deserialise");

    assert_eq!(settings.app.greeting, "hello from a test");
    assert_eq!(settings.app.interval_seconds, 3);
    assert_eq!(settings.app.log_format, LogFormat::Text);
    assert_eq!(settings.git_tag, UNKNOWN);
}

#[test]
fn log_format_deserialises_from_json_value() {
    let config = Config::builder()
        .add_source(File::from_str(
            r#"{ "app": { "log_format": "json" } }"#,
            FileFormat::Json,
        ))
        .build()
        .expect("configuration should build");
    let settings = Settings::from_config(&config).expect("configuration should deserialise");

    assert_eq!(settings.app.log_format, LogFormat::Json);
}

#[test]
fn validation_rejects_invalid_app_settings() {
    let invalid_configs = [
        AppConfig {
            greeting: " ".to_owned(),
            ..AppConfig::default()
        },
        AppConfig {
            interval_seconds: 0,
            ..AppConfig::default()
        },
        AppConfig {
            interval_seconds: 3601,
            ..AppConfig::default()
        },
    ];

    for app in invalid_configs {
        assert!(app.validate().is_err(), "configuration should be invalid");
    }
}

#[test]
fn default_greeting_is_the_documented_text() {
    assert_eq!(
        AppConfig::default().greeting,
        "Hello from a multi-architecture container"
    );
    assert_eq!(LogFormat::default(), LogFormat::Text);
}

#[test]
fn default_app_config_is_valid() {
    assert!(AppConfig::default().validate().is_ok());
}

#[test]
fn interval_bounds_are_inclusive() {
    for seconds in [1u64, 2, 3600] {
        let app = AppConfig {
            interval_seconds: seconds,
            ..AppConfig::default()
        };
        assert!(app.validate().is_ok());
    }
    for seconds in [0u64, 3601, u64::MAX] {
        let app = AppConfig {
            interval_seconds: seconds,
            ..AppConfig::default()
        };
        assert!(matches!(
            app.validate(),
            Err(SettingsError::IntervalOutOfRange)
        ));
    }
}

#[test]
fn blank_greetings_are_rejected_first() {
    for greeting in ["", " ", "\t\n\r", "\u{a0}", "\u{3000}\u{2028}", "\u{85}\u{1680}"] {
        let app = AppConfig {
            greeting: greeting.to_owned(),
            interval_seconds: 0,
            ..AppConfig::default()
        };
        assert!(matches!(app.validate(), Err(SettingsError::BlankGreeting)));
        assert_eq!(greeting.trim().is_empty(), true);
    }
}

#[test]
fn greetings_with_visible_text_pass() {
    for greeting in ["  hi  ", "\u{200b}", "x"] {
        let app = AppConfig {
            greeting: greeting.to_owned(),
            ..AppConfig::default()
        };
        assert!(app.validate().is_ok());
        assert_eq!(greeting.trim().is_empty(), false);
    }
}

#[test]
fn validation_messages() {
    assert_eq!(
        SettingsError::BlankGreeting.message(),
        "app.greeting must not be empty"
    );
    assert_eq!(
        SettingsError::IntervalOutOfRange.message(),
        "app.interval_seconds must be between 1 and 3600"
    );
    assert_eq!(
        SettingsError::UnknownLogFormat("xml".to_owned()).message(),
        "enum LogFormat does not have variant constructor xml for key `app.log_format`"
    );
    assert_eq!(
        SettingsError::LogFormatShape.message(),
        "value of enum LogFormat should be represented by either string or table with exactly one key for key `app.log_format`"
    );
}

#[test]
fn log_format_names_ignore_case() {
    assert_eq!(LogFormat::from_name("json"), Some(LogFormat::Json));
    assert_eq!(LogFormat::from_name("JSON"), Some(LogFormat::Json));
    assert_eq!(LogFormat::from_name("Text"), Some(LogFormat::Text));
    assert_eq!(LogFormat::from_name("xml"), None);
    assert_eq!(LogFormat::from_name(""), None);
}

#[test]
fn upper_case_log_format_in_configuration() {
    let settings = settings_from_json(r#"{ "app": { "log_format": "JSON" } }"#).unwrap();
    assert_eq!(settings.app.log_format, LogFormat::Json);
}

#[test]
fn unknown_log_format_is_an_error() {
    match settings_from_json(r#"{ "app": { "log_format": "xml" } }"#) {
        Err(SettingsError::UnknownLogFormat(raw)) => assert_eq!(raw, "xml"),
        other => panic!("unexpected result {:?}", other),
    }
}

#[test]
fn empty_configuration_gives_defaults() {
    let settings = settings_from_json("{}").unwrap();
    assert_eq!(settings.app.greeting, AppConfig::default().greeting);
    assert_eq!(settings.app.interval_seconds, 3);
    assert_eq!(settings.app.log_format, LogFormat::Text);
    for value in [
        &settings.git_repository,
        &settings.git_branch,
        &settings.git_commit,
        &settings.git_tag,
        &settings.github_workflow,
        &settings.github_run_id,
        &settings.github_run_number,
    ] {
        assert_eq!(value, UNKNOWN);
    }
}

#[test]
fn interval_given_as_text_is_converted() {
    let settings = settings_from_json(r#"{ "app": { "interval_seconds": "10" } }"#).unwrap();
    assert_eq!(settings.app.interval_seconds, 10);
}

#[test]
fn interval_that_is_not_a_number_is_a_source_error() {
    assert!(matches!(
        settings_from_json(r#"{ "app": { "interval_seconds": "soon" } }"#),
        Err(SettingsError::Source(_))
    ));
}

#[test]
fn app_section_that_is_not_a_table_is_a_source_error() {
    assert!(matches!(
        settings_from_json(r#"{ "app": "hello" }"#),
        Err(SettingsError::Source(_))
    ));
}

#[test]
fn null_greeting_is_a_source_error() {
    assert!(matches!(
        settings_from_json(r#"{ "app": { "greeting": null } }"#),
        Err(SettingsError::Source(_))
    ));
}

#[test]
fn provenance_values_are_kept_as_text() {
    let settings = settings_from_json(
        r#"{ "git_commit": "0123456789", "git_tag": "v1.2.3", "github_run_id": 42 }"#,
    )
    .unwrap();
    assert_eq!(settings.git_commit, "0123456789");
    assert_eq!(settings.git_tag, "v1.2.3");
    assert_eq!(settings.github_run_id, "42");
    assert_eq!(settings.git_branch, UNKNOWN);
}

#[test]
fn decoding_does_not_validate() {
    let settings = settings_from_json(r#"{ "app": { "interval_seconds": 0 } }"#).unwrap();
    assert_eq!(settings.app.interval_seconds, 0);
    assert!(matches!(
        settings.app.validate(),
        Err(SettingsError::IntervalOutOfRange)
    ));
}

#[test]
fn app_entries_take_defaults_where_absent() {
    let app = AppConfig::from_entries(AppEntries {
        greeting: Ok(None),
        interval_seconds: Ok(Some(60)),
        log_format: Ok(None),
    })
    .unwrap();
    assert_eq!(app.greeting, "Hello from a multi-architecture container");
    assert_eq!(app.interval_seconds, 60);
    assert_eq!(app.log_format, LogFormat::Text);
}

#[test]
fn settings_entries_without_app_section() {
    let settings = Settings::from_entries(SettingsEntries {
        app: Ok(None),
        git_repository: Ok(Some("f2calv/multi-arch-container-rust".to_owned())),
        git_branch: Ok(None),
        git_commit: Ok(None),
        git_tag: Ok(Some("1.0.0".to_owned())),
        github_workflow: Ok(None),
        github_run_id: Ok(None),
        github_run_number: Ok(None),
    })
    .unwrap();
    assert_eq!(settings.app.interval_seconds, 3);
    assert_eq!(settings.git_repository, "f2calv/multi-arch-container-rust");
    assert_eq!(settings.git_tag, "1.0.0");
    assert_eq!(settings.git_commit, UNKNOWN);
}

#[test]
fn unknown_is_the_placeholder() {
    assert_eq!(unknown(), "n/a");
    assert_eq!(UNKNOWN, "n/a");
}

#[test]
fn source_error_message_is_the_config_error_text() {
    match settings_from_json(r#"{ "app": "hello" }"#) {
        Err(err @ SettingsError::Source(_)) => {
            let text = err.message();
            if let SettingsError::Source(inner) = &err {
                assert_eq!(text, inner.to_string());
            }
        }
        other => panic!("unexpected result {:?}", other),
    }
}

#[test]
fn load_partial_file_falls_back_to_defaults() {
    let config = layered(Some(r#"{ "app": { "greeting": "hello from a test" } }"#), &[]);
    let s = load(&config).unwrap();
    assert_eq!(s.app.greeting, "hello from a test");
    assert_eq!(s.app.interval_seconds, 3);
    assert_eq!(s.app.log_format, LogFormat::Text);
    assert_eq!(s.git_tag, UNKNOWN);
}

#[test]
fn load_log_format_from_file() {
    let config = layered(Some(r#"{ "app": { "log_format": "json" } }"#), &[]);
    assert_eq!(load(&config).unwrap().app.log_format, LogFormat::Json);
}

#[test]
fn load_log_format_from_environment_ignores_case() {
    let config = layered(None, &[("APP__LOG_FORMAT", "JSON")]);
    assert_eq!(load(&config).unwrap().app.log_format, LogFormat::Json);
}

#[test]
fn load_interval_from_environment() {
    let config = layered(None, &[("APP__INTERVAL_SECONDS", "10")]);
    let s = load(&config).unwrap();
    assert_eq!(s.app.interval_seconds, 10);
    assert_eq!(s.app.greeting, AppConfig::default().greeting);
    assert_eq!(s.app.log_format, LogFormat::Text);
}

#[test]
fn load_environment_overrides_file() {
    let config = layered(
        Some(r#"{ "app": { "greeting": "from file", "interval_seconds": 5 } }"#),
        &[("APP__GREETING", "from env")],
    );
    let s = load(&config).unwrap();
    assert_eq!(s.app.greeting, "from env");
    assert_eq!(s.app.interval_seconds, 5);
}

#[test]
fn load_empty_configuration_gives_defaults() {
    let s = load(&layered(None, &[])).unwrap();
    assert_eq!(s.app.greeting, AppConfig::default().greeting);
    assert_eq!(s.app.interval_seconds, 3);
    assert_eq!(s.app.log_format, LogFormat::Text);
    for value in [
        &s.git_repository,
        &s.git_branch,
        &s.git_commit,
        &s.git_tag,
        &s.github_workflow,
        &s.github_run_id,
        &s.github_run_number,
    ] {
        assert_eq!(value, "n/a");
    }
}

#[test]
fn load_keeps_an_all_digit_commit_as_text() {
    let config = layered(None, &[("GIT_COMMIT", "0123456789")]);
    assert_eq!(load(&config).unwrap().git_commit, "0123456789");
}

#[test]
fn load_rejects_a_zero_interval() {
    let config = layered(None, &[("APP__INTERVAL_SECONDS", "0")]);
    match load(&config) {
        Err(error @ SettingsError::IntervalOutOfRange) => assert_eq!(
            error.message(),
            "app.interval_seconds must be between 1 and 3600"
        ),
        other => panic!("unexpected result {:?}", other),
    }
}

#[test]
fn load_rejects_a_blank_greeting() {
    let config = layered(Some(r#"{ "app": { "greeting": "   " } }"#), &[]);
    assert!(matches!(load(&config), Err(SettingsError::BlankGreeting)));
}

#[test]
fn load_binds_only_snake_case_keys() {
    let config = layered(Some(r#"{ "app": { "Greeting": "ignored" } }"#), &[]);
    assert_eq!(
        load(&config).unwrap().app.greeting,
        "Hello from a multi-architecture container"
    );
}

#[test]
fn log_format_as_a_table_with_one_key() {
    let settings = settings_from_json(r#"{ "app": { "log_format": { "json": null } } }"#).unwrap();
    assert_eq!(settings.app.log_format, LogFormat::Json);
}

#[test]
fn log_format_of_the_wrong_shape() {
    for json in [
        r#"{ "app": { "log_format": 5 } }"#,
        r#"{ "app": { "log_format": { "json": 1, "text": 2 } } }"#,
        r#"{ "app": { "log_format": [] } }"#,
    ] {
        assert!(matches!(
            settings_from_json(json),
            Err(SettingsError::LogFormatShape)
        ));
    }
}

#[test]
fn log_format_from_shapes() {
    assert_eq!(
        LogFormat::from_shape(ValueShape::Text("Json".to_owned())).unwrap(),
        LogFormat::Json
    );
    assert_eq!(
        LogFormat::from_shape(ValueShape::Table(vec!["text".to_owned()])).unwrap(),
        LogFormat::Text
    );
    assert_eq!(
        LogFormat::from_shape(ValueShape::Table(vec!["json".to_owned(), "json".to_owned()]))
            .unwrap(),
        LogFormat::Json
    );
    assert!(matches!(
        LogFormat::from_shape(ValueShape::Table(vec![])),
        Err(SettingsError::LogFormatShape)
    ));
    assert!(matches!(
        LogFormat::from_shape(ValueShape::Other),
        Err(SettingsError::LogFormatShape)
    ));
    assert!(matches!(
        LogFormat::from_shape(ValueShape::Text("yaml".to_owned())),
        Err(SettingsError::UnknownLogFormat(_))
    ));
}

#[test]
fn log_format_table_with_a_large_value() {
    let settings = settings_from_json(
        r#"{ "app": { "log_format": { "json": 18446744073709551615 } } }"#,
    )
    .unwrap();
    assert_eq!(settings.app.log_format, LogFormat::Json);
}

#[test]
fn log_format_table_key_ignores_case() {
    let settings = settings_from_json(r#"{ "app": { "log_format": { "TEXT": 1 } } }"#).unwrap();
    assert_eq!(settings.app.log_format, LogFormat::Text);
}
