use rust_core::{
    env_prefix, AppConfig, AppPaths, CoreError, Environment, LogLevel, DEFAULT_TIMEOUT,
};

fn env_with(vars: &[(&str, &str)]) -> Environment {
    Environment {
        vars: vars.iter().map(|(k, v)| (k.to_string(), v.to_string())).collect(),
        home_dir: Some("/home/user".to_string()),
        config_dir: None,
        data_dir: None,
        state_dir: None,
        cache_dir: None,
    }
}

fn sample_paths() -> AppPaths {
    AppPaths {
        config_file: "/tmp/app/config.toml".to_string(),
        data_dir: "/tmp/app/data".to_string(),
        state_dir: "/tmp/app/state".to_string(),
        cache_dir: "/tmp/app/cache".to_string(),
    }
}

fn assert_defaults(cfg: &AppConfig) {
    assert_eq!(cfg.profile, "default");
    assert_eq!(cfg.logging.level, LogLevel::Info);
    assert_eq!(cfg.logging.file, None);
    assert_eq!(cfg.runtime.timeout, Some(60));
    assert!(cfg.runtime.fail_fast);
    assert_eq!(cfg.runtime.parallelism, None);
    assert_eq!(cfg.paths.data_dir, None);
    assert_eq!(cfg.paths.state_dir, None);
}

#[test]
fn env_prefix_uppercases_and_replaces() {
    assert_eq!(env_prefix(), "RUST_WORKSPACE");
}

#[test]
fn defaults_without_file_or_variables() {
    let cfg = AppConfig::load_from_path(None, &env_with(&[])).unwrap();
    assert_defaults(&cfg);
    assert_eq!(cfg, AppConfig::default());
    assert_eq!(DEFAULT_TIMEOUT, 60);
}

#[test]
fn unrelated_variables_are_ignored() {
    let env = env_with(&[("PATH", "/usr/bin"), ("OTHER__RUNTIME__TIMEOUT", "9")]);
    let cfg = AppConfig::load_from_path(None, &env).unwrap();
    assert_eq!(cfg, AppConfig::default());
}

#[test]
fn environment_beats_file_beats_defaults() {
    let file = "[runtime]\ntimeout = 5\n".to_string();
    let env = env_with(&[("RUST_WORKSPACE__RUNTIME__FAIL_FAST", "false")]);
    let cfg = AppConfig::load_from_path(Some(file), &env).unwrap();
    assert_eq!(cfg.runtime.timeout, Some(5));
    assert!(!cfg.runtime.fail_fast);
    assert_eq!(cfg.profile, "default");
}

#[test]
fn environment_overrides_a_field_the_file_sets() {
    let file = "profile = \"work\"\n[runtime]\ntimeout = 5\n".to_string();
    let env = env_with(&[("RUST_WORKSPACE__RUNTIME__TIMEOUT", "30")]);
    let cfg = AppConfig::load_from_path(Some(file), &env).unwrap();
    assert_eq!(cfg.runtime.timeout, Some(30));
    assert_eq!(cfg.profile, "work");
}

#[test]
fn sections_merge_field_by_field() {
    let file = "[logging]\nlevel = \"debug\"\n".to_string();
    let env = env_with(&[("RUST_WORKSPACE__LOGGING__FILE", "/var/log/app.log")]);
    let cfg = AppConfig::load_from_path(Some(file), &env).unwrap();
    assert_eq!(cfg.logging.level, LogLevel::Debug);
    assert_eq!(cfg.logging.file, Some("/var/log/app.log".to_string()));
}

#[test]
fn every_field_read_from_the_file() {
    let file = "profile = \"ci\"\n\
                [logging]\nlevel = \"trace\"\nfile = \"/tmp/log.txt\"\n\
                [runtime]\nparallelism = 4\ntimeout = 10\nfail_fast = false\n\
                [paths]\ndata_dir = \"/d\"\nstate_dir = \"/s\"\n"
        .to_string();
    let cfg = AppConfig::load_from_path(Some(file), &env_with(&[])).unwrap();
    assert_eq!(cfg.profile, "ci");
    assert_eq!(cfg.logging.level, LogLevel::Trace);
    assert_eq!(cfg.logging.file, Some("/tmp/log.txt".to_string()));
    assert_eq!(cfg.runtime.parallelism, Some(4));
    assert_eq!(cfg.runtime.timeout, Some(10));
    assert!(!cfg.runtime.fail_fast);
    assert_eq!(cfg.paths.data_dir, Some("/d".to_string()));
    assert_eq!(cfg.paths.state_dir, Some("/s".to_string()));
}

#[test]
fn every_field_read_from_the_environment() {
    let env = env_with(&[
        ("RUST_WORKSPACE__PROFILE", "prod"),
        ("RUST_WORKSPACE__LOGGING__LEVEL", "warn"),
        ("RUST_WORKSPACE__RUNTIME__PARALLELISM", "8"),
        ("RUST_WORKSPACE__RUNTIME__TIMEOUT", "120"),
        ("RUST_WORKSPACE__RUNTIME__FAIL_FAST", "true"),
        ("RUST_WORKSPACE__PATHS__DATA_DIR", "/data"),
        ("RUST_WORKSPACE__PATHS__STATE_DIR", "/state"),
    ]);
    let cfg = AppConfig::load_from_path(None, &env).unwrap();
    assert_eq!(cfg.profile, "prod");
    assert_eq!(cfg.logging.level, LogLevel::Warn);
    assert_eq!(cfg.runtime.parallelism, Some(8));
    assert_eq!(cfg.runtime.timeout, Some(120));
    assert!(cfg.runtime.fail_fast);
    assert_eq!(cfg.paths.data_dir, Some("/data".to_string()));
    assert_eq!(cfg.paths.state_dir, Some("/state".to_string()));
}

#[test]
fn last_variable_of_a_name_wins() {
    let env = env_with(&[
        ("RUST_WORKSPACE__PROFILE", "first"),
        ("RUST_WORKSPACE__PROFILE", "second"),
    ]);
    let cfg = AppConfig::load_from_path(None, &env).unwrap();
    assert_eq!(cfg.profile, "second");
}

#[test]
fn malformed_file_is_a_parse_error() {
    let r = AppConfig::load_from_path(Some("[runtime\ntimeout = ".to_string()), &env_with(&[]));
    assert!(matches!(r, Err(CoreError::Parse(_))));
}

#[test]
fn file_value_of_wrong_type_names_the_field() {
    let r = AppConfig::load_from_path(Some("[runtime]\ntimeout = \"5\"\n".to_string()), &env_with(&[]));
    assert_eq!(r, Err(CoreError::TypeCoercion("runtime.timeout".to_string())));
    let r = AppConfig::load_from_path(Some("runtime = 5\n".to_string()), &env_with(&[]));
    assert_eq!(r, Err(CoreError::TypeCoercion("runtime".to_string())));
    let r = AppConfig::load_from_path(Some("[logging]\nlevel = \"loud\"\n".to_string()), &env_with(&[]));
    assert_eq!(r, Err(CoreError::TypeCoercion("logging.level".to_string())));
    let r = AppConfig::load_from_path(Some("[runtime]\nparallelism = 0\n".to_string()), &env_with(&[]));
    assert_eq!(r, Err(CoreError::TypeCoercion("runtime.parallelism".to_string())));
    let r = AppConfig::load_from_path(Some("profile = \"\"\n".to_string()), &env_with(&[]));
    assert_eq!(r, Err(CoreError::TypeCoercion("profile".to_string())));
}

#[test]
fn unknown_file_keys_are_ignored() {
    let file = "\"$schema\" = \"https://example.org/s.json\"\nextra = 1\n[runtime]\nretries = 3\n".to_string();
    let cfg = AppConfig::load_from_path(Some(file), &env_with(&[])).unwrap();
    assert_eq!(cfg, AppConfig::default());
}

#[test]
fn environment_value_of_wrong_type_names_the_field() {
    let cases = [
        ("RUST_WORKSPACE__RUNTIME__TIMEOUT", "abc", "runtime.timeout"),
        ("RUST_WORKSPACE__RUNTIME__TIMEOUT", "0", "runtime.timeout"),
        ("RUST_WORKSPACE__RUNTIME__TIMEOUT", "18446744073709551616", "runtime.timeout"),
        ("RUST_WORKSPACE__RUNTIME__PARALLELISM", "-2", "runtime.parallelism"),
        ("RUST_WORKSPACE__RUNTIME__FAIL_FAST", "yes", "runtime.fail_fast"),
        ("RUST_WORKSPACE__LOGGING__LEVEL", "loud", "logging.level"),
        ("RUST_WORKSPACE__PROFILE", "", "profile"),
    ];
    for (name, value, field) in cases {
        let r = AppConfig::load_from_path(None, &env_with(&[(name, value)]));
        assert_eq!(r, Err(CoreError::TypeCoercion(field.to_string())), "{name}={value}");
    }
}

#[test]
fn largest_timeout_is_accepted() {
    let env = env_with(&[("RUST_WORKSPACE__RUNTIME__TIMEOUT", "18446744073709551615")]);
    let cfg = AppConfig::load_from_path(None, &env).unwrap();
    assert_eq!(cfg.runtime.timeout, Some(u64::MAX));
}

#[test]
fn log_file_is_expanded_once() {
    let env = env_with(&[("LOGDIR", "/var/log"), ("RUST_WORKSPACE__LOGGING__FILE", "$LOGDIR/app.log")]);
    let cfg = AppConfig::load_from_path(None, &env).unwrap();
    assert_eq!(cfg.logging.file, Some("/var/log/app.log".to_string()));
    let file = "[logging]\nfile = \"~/logs/app.log\"\n".to_string();
    let cfg = AppConfig::load_from_path(Some(file), &env_with(&[])).unwrap();
    assert_eq!(cfg.logging.file, Some("/home/user/logs/app.log".to_string()));
}

#[test]
fn log_file_with_unset_variable_fails() {
    let file = "[logging]\nfile = \"$NOWHERE/app.log\"\n".to_string();
    let r = AppConfig::load_from_path(Some(file), &env_with(&[]));
    assert_eq!(r, Err(CoreError::PathExpansion("$NOWHERE/app.log".to_string())));
}

#[test]
fn load_without_file_asks_for_the_default_file() {
    let loaded = AppConfig::load(&sample_paths(), None, false, &env_with(&[])).unwrap();
    assert_defaults(&loaded.config);
    let text = loaded.default_file.expect("a default file to write");
    assert!(text.starts_with("\"$schema\" = \""));
    assert!(text.contains("# File: /tmp/app/config.toml\n"));
    let reread = AppConfig::load_from_path(Some(text), &env_with(&[])).unwrap();
    assert_eq!(reread, AppConfig::default());
}

#[test]
fn dry_run_load_writes_nothing_and_yields_defaults() {
    let loaded = AppConfig::load(&sample_paths(), None, true, &env_with(&[])).unwrap();
    assert_eq!(loaded.default_file, None);
    assert_eq!(loaded.config, AppConfig::default());
}

#[test]
fn load_with_existing_file_reads_it() {
    let existing = Some("profile = \"saved\"\n".to_string());
    let loaded = AppConfig::load(&sample_paths(), existing, false, &env_with(&[])).unwrap();
    assert_eq!(loaded.default_file, None);
    assert_eq!(loaded.config.profile, "saved");
}

#[test]
fn profile_override_replaces_only_when_given() {
    let cfg = AppConfig::default().with_profile_override(Some("other".to_string()));
    assert_eq!(cfg.profile, "other");
    assert_eq!(cfg.runtime.timeout, Some(60));
    let cfg = AppConfig::default().with_profile_override(None);
    assert_eq!(cfg, AppConfig::default());
}
