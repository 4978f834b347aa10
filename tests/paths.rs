use rust_core::{expand_path, join_path, path_has_parent, AppConfig, AppPaths, CoreError, Environment};

fn env(vars: &[(&str, &str)], home: Option<&str>, platform: Option<&str>) -> Environment {
    Environment {
        vars: vars.iter().map(|(k, v)| (k.to_string(), v.to_string())).collect(),
        home_dir: home.map(|h| h.to_string()),
        config_dir: platform.map(|p| format!("{p}/config")),
        data_dir: platform.map(|p| format!("{p}/data")),
        state_dir: platform.map(|p| format!("{p}/state")),
        cache_dir: platform.map(|p| format!("{p}/cache")),
    }
}

#[test]
fn discover_uses_xdg_variables_first() {
    let e = env(
        &[
            ("XDG_CONFIG_HOME", "/xdg/config"),
            ("XDG_DATA_HOME", "/xdg/data/"),
            ("XDG_STATE_HOME", "/xdg/state"),
            ("XDG_CACHE_HOME", "/xdg/cache"),
        ],
        Some("/home/u"),
        Some("/plat"),
    );
    let p = AppPaths::discover(None, false, &e).unwrap();
    assert_eq!(p.config_file, "/xdg/config/rust-workspace/config.toml");
    assert_eq!(p.data_dir, "/xdg/data/rust-workspace");
    assert_eq!(p.state_dir, "/xdg/state/rust-workspace");
    assert_eq!(p.cache_dir, "/xdg/cache/rust-workspace");
}

#[test]
fn discover_skips_empty_variables_for_platform_dirs() {
    let e = env(&[("XDG_CONFIG_HOME", "")], Some("/home/u"), Some("/plat"));
    let p = AppPaths::discover(None, false, &e).unwrap();
    assert_eq!(p.config_file, "/plat/config/rust-workspace/config.toml");
    assert_eq!(p.data_dir, "/plat/data/rust-workspace");
}

#[test]
fn discover_falls_back_to_home() {
    let e = env(&[], Some("/home/u"), None);
    let p = AppPaths::discover(None, false, &e).unwrap();
    assert_eq!(p.config_file, "/home/u/.config/rust-workspace/config.toml");
    assert_eq!(p.data_dir, "/home/u/.local/share/rust-workspace");
    assert_eq!(p.state_dir, "/home/u/.local/state/rust-workspace");
    assert_eq!(p.cache_dir, "/home/u/.cache/rust-workspace");
}

#[test]
fn discover_without_home_fails() {
    let e = env(&[], None, None);
    assert_eq!(
        AppPaths::discover(None, false, &e),
        Err(CoreError::DirectoryResolution("configuration".to_string()))
    );
    let e = env(&[("XDG_CONFIG_HOME", "/c")], None, None);
    assert_eq!(
        AppPaths::discover(None, false, &e),
        Err(CoreError::DirectoryResolution("data".to_string()))
    );
}

#[test]
fn discover_is_repeatable() {
    let e = env(&[("XDG_CONFIG_HOME", "/c")], Some("/home/u"), Some("/plat"));
    let first = AppPaths::discover(Some("~/cfg".to_string()), false, &e);
    let second = AppPaths::discover(Some("~/cfg".to_string()), false, &e);
    assert_eq!(first, second);
    assert_eq!(first.unwrap().config_file, "/home/u/cfg");
}

#[test]
fn override_directory_gets_conventional_file_name() {
    let e = env(&[], Some("/home/u"), None);
    let p = AppPaths::discover(Some("/tmp/somewhere".to_string()), true, &e).unwrap();
    assert_eq!(p.config_file, "/tmp/somewhere/config.toml");
    let p = AppPaths::discover(Some("/tmp/somewhere/".to_string()), true, &e).unwrap();
    assert_eq!(p.config_file, "/tmp/somewhere/config.toml");
}

#[test]
fn override_to_missing_location_is_used_verbatim() {
    let e = env(&[], Some("/home/u"), None);
    let p = AppPaths::discover(Some("/tmp/does/not/exist.toml".to_string()), false, &e).unwrap();
    assert_eq!(p.config_file, "/tmp/does/not/exist.toml");
}

#[test]
fn override_is_expanded() {
    let e = env(&[("CFG", "/etc/app")], Some("/home/u"), None);
    let p = AppPaths::discover(Some("$CFG/main.toml".to_string()), false, &e).unwrap();
    assert_eq!(p.config_file, "/etc/app/main.toml");
    assert_eq!(
        AppPaths::discover(Some("$MISSING/main.toml".to_string()), false, &e),
        Err(CoreError::PathExpansion("$MISSING/main.toml".to_string()))
    );
}

#[test]
fn config_path_without_parent_is_rejected() {
    let e = env(&[], Some("/home/u"), None);
    assert_eq!(
        AppPaths::discover(Some("config.toml".to_string()), false, &e),
        Err(CoreError::InvalidConfigPath("config.toml".to_string()))
    );
    assert_eq!(
        AppPaths::discover(Some("/".to_string()), false, &e),
        Err(CoreError::InvalidConfigPath("/".to_string()))
    );
}

#[test]
fn parent_detection() {
    assert!(path_has_parent("/x"));
    assert!(path_has_parent("a/b"));
    assert!(path_has_parent("./config.toml"));
    assert!(!path_has_parent("/"));
    assert!(!path_has_parent("dir/"));
    assert!(!path_has_parent(""));
}

#[test]
fn join_inserts_one_separator() {
    assert_eq!(join_path("/a", "b"), "/a/b");
    assert_eq!(join_path("/a/", "b"), "/a/b");
    assert_eq!(join_path("", "b"), "b");
}

#[test]
fn expansion_of_home_and_variables() {
    let e = env(&[("A", "x")], Some("/home/u"), None);
    assert_eq!(expand_path("~/d/$A", &e), Ok("/home/u/d/x".to_string()));
    assert_eq!(expand_path("/plain/path", &e), Ok("/plain/path".to_string()));
    assert_eq!(expand_path("${A}y", &e), Ok("xy".to_string()));
    assert_eq!(expand_path("a~b", &e), Ok("a~b".to_string()));
    assert_eq!(expand_path("${UNSET:-/fallback}/x", &e), Ok("/fallback/x".to_string()));
}

#[test]
fn overrides_replace_data_and_state_only() {
    let e = env(&[("BASE", "/srv")], Some("/home/u"), None);
    let paths = AppPaths {
        config_file: "/c/config.toml".to_string(),
        data_dir: "/d".to_string(),
        state_dir: "/s".to_string(),
        cache_dir: "/k".to_string(),
    };
    let mut cfg = AppConfig::default();
    cfg.paths.data_dir = Some("$BASE/data".to_string());
    let p = paths.clone().apply_overrides(&cfg, &e).unwrap();
    assert_eq!(p.data_dir, "/srv/data");
    assert_eq!(p.state_dir, "/s");
    assert_eq!(p.config_file, "/c/config.toml");
    assert_eq!(p.cache_dir, "/k");
    cfg.paths.state_dir = Some("~/state".to_string());
    let p = paths.clone().apply_overrides(&cfg, &e).unwrap();
    assert_eq!(p.state_dir, "/home/u/state");
    let p = paths.clone().apply_overrides(&AppConfig::default(), &e).unwrap();
    assert_eq!(p, paths);
}

#[test]
fn detect_keeps_the_given_variables() {
    let vars = vec![("A".to_string(), "1".to_string())];
    let e = Environment::detect(vars.clone());
    assert_eq!(e.vars, vars);
}

#[test]
fn summary_lists_config_data_and_state() {
    let p = AppPaths {
        config_file: "/c/config.toml".to_string(),
        data_dir: "/d".to_string(),
        state_dir: "/s".to_string(),
        cache_dir: "/k".to_string(),
    };
    assert_eq!(p.summary(), "config: /c/config.toml, data: /d, state: /s");
}
