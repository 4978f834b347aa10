use rust_core::{
    default_config_header, default_config_text, generate_example_config, parse_positive,
    render_config, schema_description, schema_id, schema_title, str_eq, validate_against_examples,
    AppConfig, ColorMode, ColorOption, CommonOpts, CoreError, Environment, InitAction, LogLevel,
};

const APP_NAME: &str = "rust-cli";

fn no_env() -> Environment {
    Environment {
        vars: Vec::new(),
        home_dir: None,
        config_dir: None,
        data_dir: None,
        state_dir: None,
        cache_dir: None,
    }
}

#[test]
fn test_config_generation() {
    let config = generate_example_config(APP_NAME).expect("config generation failed");
    assert!(config.contains("[logging]"));
    assert!(config.contains("[runtime]"));
    assert!(config.contains("$schema"));
}

#[test]
fn example_config_layout() {
    let config = generate_example_config("myapp").unwrap();
    let expected_start = "\"$schema\" = \"https://raw.githubusercontent.com/byteowlz/schemas/refs/heads/main/myapp/myapp.config.schema.json\"\n\n# Configuration for myapp.\n# Copy this file to $XDG_CONFIG_HOME/myapp/config.toml and adjust as needed.\n\n";
    assert!(config.starts_with(expected_start));
    let body = &config[expected_start.len()..];
    assert_eq!(body, render_config(&AppConfig::default()).unwrap());
}

#[test]
fn default_round_trips_through_toml() {
    let text = render_config(&AppConfig::default()).unwrap();
    assert!(text.contains("profile = \"default\""));
    assert!(text.contains("level = \"info\""));
    assert!(text.contains("timeout = 60"));
    assert!(text.contains("fail_fast = true"));
    let back = AppConfig::load_from_path(Some(text), &no_env()).unwrap();
    assert_eq!(back, AppConfig::default());
}

#[test]
fn configuration_round_trips_through_toml() {
    let mut cfg = AppConfig::default();
    cfg.profile = "work".to_string();
    cfg.logging.level = LogLevel::Error;
    cfg.logging.file = Some("/var/log/a.log".to_string());
    cfg.runtime.parallelism = Some(3);
    cfg.runtime.timeout = Some(7);
    cfg.runtime.fail_fast = false;
    cfg.paths.data_dir = Some("/data".to_string());
    cfg.paths.state_dir = Some("/state".to_string());
    let text = render_config(&cfg).unwrap();
    let back = AppConfig::load_from_path(Some(text), &no_env()).unwrap();
    assert_eq!(back, cfg);
}

#[test]
fn oversized_integer_cannot_be_written() {
    let mut cfg = AppConfig::default();
    cfg.runtime.timeout = Some(u64::MAX);
    assert!(matches!(render_config(&cfg), Err(CoreError::Serialization(_))));
}

#[test]
fn default_file_text_layout() {
    assert_eq!(
        default_config_header("/etc/app/config.toml"),
        "# Configuration for rust-workspace\n# File: /etc/app/config.toml\n\n"
    );
    let text = default_config_text("/etc/app/config.toml").unwrap();
    let expected_start = "\"$schema\" = \"https://raw.githubusercontent.com/byteowlz/schemas/refs/heads/main/rust-workspace/rust-workspace.config.schema.json\"\n\n# Configuration for rust-workspace\n# File: /etc/app/config.toml\n\n";
    assert!(text.starts_with(expected_start));
}

#[test]
fn schema_metadata_names_the_application() {
    assert_eq!(schema_title("myapp"), "myapp configuration");
    assert!(schema_title("myapp").contains("myapp"));
    assert_eq!(schema_description("myapp"), "Configuration schema for myapp");
    assert_eq!(
        schema_id("https://github.com/byteowlz/rust-cli"),
        "https://github.com/byteowlz/rust-cli/schemas/config.schema.json"
    );
}

#[test]
fn validation_passes_on_current_copies() {
    let r = validate_against_examples(
        "/ex",
        "{}",
        "a = 1\n",
        Some("{}".to_string()),
        Some("a = 1\n".to_string()),
    );
    assert_eq!(r, Ok(()));
}

#[test]
fn validation_reports_missing_and_stale_files() {
    let r = validate_against_examples("/ex", "{}", "a = 1\n", None, Some("a = 1\n".to_string()));
    assert_eq!(
        r,
        Err(CoreError::Consistency(vec![
            "/ex/config.schema.json does not exist; regenerate it".to_string()
        ]))
    );
    let r = validate_against_examples("/ex", "{}", "a = 1\n", Some("{}".to_string()), Some("a = 2\n".to_string()));
    assert_eq!(
        r,
        Err(CoreError::Consistency(vec![
            "/ex/config.toml is out of date; regenerate it".to_string()
        ]))
    );
    let r = validate_against_examples("/ex", "{}", "a = 1\n", Some("{ }".to_string()), None);
    assert_eq!(
        r,
        Err(CoreError::Consistency(vec![
            "/ex/config.schema.json is out of date; regenerate it".to_string(),
            "/ex/config.toml does not exist; regenerate it".to_string(),
        ]))
    );
}

#[test]
fn positive_decimal_edges() {
    assert_eq!(parse_positive("0", u64::MAX), None);
    assert_eq!(parse_positive("", u64::MAX), None);
    assert_eq!(parse_positive("42", u64::MAX), Some(42));
    assert_eq!(parse_positive("007", u64::MAX), Some(7));
    assert_eq!(parse_positive("18446744073709551615", u64::MAX), Some(u64::MAX));
    assert_eq!(parse_positive("18446744073709551616", u64::MAX), None);
    assert_eq!(parse_positive("11", 10), None);
    assert_eq!(parse_positive("1x", u64::MAX), None);
}

#[test]
fn string_equality() {
    assert!(str_eq("abc", "abc"));
    assert!(!str_eq("abc", "abd"));
    assert!(!str_eq("abc", "ab"));
}

fn opts() -> CommonOpts {
    CommonOpts {
        config: None,
        quiet: false,
        verbose: 0,
        debug: false,
        trace: false,
        json: false,
        yaml: false,
        no_color: false,
        color: ColorOption::Auto,
        dry_run: false,
        assume_yes: false,
        no_input: false,
        timeout: None,
        parallel: None,
        no_progress: false,
        diagnostics: false,
    }
}

#[test]
fn log_level_from_options() {
    let mut o = opts();
    assert_eq!(o.effective_log_level(), LogLevel::Info);
    o.verbose = 1;
    assert_eq!(o.effective_log_level(), LogLevel::Debug);
    o.verbose = 3;
    assert_eq!(o.effective_log_level(), LogLevel::Trace);
    o.verbose = 0;
    o.debug = true;
    assert_eq!(o.effective_log_level(), LogLevel::Debug);
    o.trace = true;
    assert_eq!(o.effective_log_level(), LogLevel::Trace);
}

#[test]
fn color_mode_from_options() {
    let mut o = opts();
    assert_eq!(o.color_mode(false, false, true), ColorMode::Auto);
    assert_eq!(o.color_mode(false, false, false), ColorMode::Never);
    assert_eq!(o.color_mode(true, false, false), ColorMode::Always);
    assert_eq!(o.color_mode(true, true, true), ColorMode::Never);
    o.color = ColorOption::Always;
    assert_eq!(o.color_mode(false, false, false), ColorMode::Always);
    o.no_color = true;
    assert_eq!(o.color_mode(false, false, true), ColorMode::Never);
}

#[test]
fn init_action_from_options() {
    let mut o = opts();
    assert_eq!(o.init_action(true, false), InitAction::Refuse);
    assert_eq!(o.init_action(true, true), InitAction::Write);
    assert_eq!(o.init_action(false, false), InitAction::Write);
    o.dry_run = true;
    assert_eq!(o.init_action(false, false), InitAction::Preview);
    o.assume_yes = true;
    assert_eq!(o.init_action(true, false), InitAction::Preview);
}

#[test]
fn level_names() {
    assert_eq!(LogLevel::from_name("warn"), Some(LogLevel::Warn));
    assert_eq!(LogLevel::from_name("WARN"), None);
    assert_eq!(LogLevel::Trace.as_str(), "trace");
}

const BASE_SCHEMA: &str = r##"{"$schema":"http://json-schema.org/draft-07/schema#","title":"AppConfig","type":"object","properties":{"profile":{"type":"string","default":"default"}}}"##;

#[test]
fn generated_schema_is_json_with_metadata() {
    let text = rust_core::generate_schema(BASE_SCHEMA, "myapp", "https://example.org/myapp").unwrap();
    let doc: serde_json::Value = serde_json::from_str(&text).expect("the schema parses");
    let title = doc.get("title").and_then(|t| t.as_str()).unwrap();
    assert!(title.contains("myapp"));
    assert_eq!(title, "myapp configuration");
    assert_eq!(
        doc.get("$id").and_then(|t| t.as_str()),
        Some("https://example.org/myapp/schemas/config.schema.json")
    );
    assert_eq!(
        doc.get("description").and_then(|t| t.as_str()),
        Some("Configuration schema for myapp")
    );
    let props = doc.get("properties").and_then(|p| p.as_object()).unwrap();
    let entry = props.get("$schema").and_then(|p| p.as_object()).unwrap();
    assert_eq!(entry.get("type").and_then(|t| t.as_str()), Some("string"));
    assert!(props.contains_key("profile"));
    assert!(text.contains("\"$schema\""));
}

#[test]
fn schema_input_must_be_a_json_object() {
    assert!(matches!(
        rust_core::generate_schema("[1, 2]", "myapp", "u"),
        Err(CoreError::Parse(_))
    ));
    assert!(matches!(
        rust_core::generate_schema("{not json", "myapp", "u"),
        Err(CoreError::Parse(_))
    ));
}

const REPO_URL: &str = "https://github.com/byteowlz/rust-cli";

#[test]
fn test_schema_generation() {
    let schema = rust_core::generate_schema(BASE_SCHEMA, APP_NAME, REPO_URL).expect("schema generation failed");
    assert!(schema.contains("\"title\""));
    assert!(schema.contains("rust-cli configuration"));
    assert!(schema.contains("\"$schema\""));
}

#[test]
fn schema_keeps_numbers_booleans_and_arrays() {
    let base = r##"{"type":"object","required":["profile"],"properties":{"timeout":{"type":["integer","null"],"minimum":1,"default":60},"fail_fast":{"type":"boolean","default":true}}}"##;
    let text = rust_core::generate_schema(base, "myapp", "u").unwrap();
    let doc: serde_json::Value = serde_json::from_str(&text).unwrap();
    let timeout = doc.get("properties").and_then(|p| p.get("timeout")).unwrap();
    assert_eq!(timeout.get("minimum").and_then(|v| v.as_u64()), Some(1));
    assert_eq!(timeout.get("default").and_then(|v| v.as_u64()), Some(60));
    let fail_fast = doc.get("properties").and_then(|p| p.get("fail_fast")).unwrap();
    assert_eq!(fail_fast.get("default").and_then(|v| v.as_bool()), Some(true));
    assert_eq!(doc.get("required").and_then(|v| v.as_array()).map(|a| a.len()), Some(1));
}
