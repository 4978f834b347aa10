//! Loading the configuration: defaults, then the file, then the
//! environment, each layer overriding the fields it sets.

use vstd::prelude::*;

use crate::config::{
    AppConfig, ConfigLayer, ConfigView, LayerView, default_view, empty_layer, opt_str, overlay, pick,
    pick_opt, valid,
};
use crate::document::{
    config_tree, file_layer, file_layer_view, lemma_table_round_trip, parse_table, toml_document,
};
use crate::env::{EnvView, Environment, env_key, env_layer, env_layer_view, var_value};
use crate::error::{CoreError, Failure, outcome};
use crate::generate::{default_config_text, default_file_view};
use crate::paths::{AppPaths, expand_path, shell_expansion};

verus! {

/// The layer that the config file's text sets; no text sets nothing.
pub open spec fn file_part(text: Option<Seq<char>>) -> Result<LayerView, Failure> {
    match text {
        None => Ok(empty_layer()),
        Some(t) => match toml_document(t) {
            None => Err(Failure::Parse),
            Some(doc) => match file_layer_view(doc) {
                Ok(l) => Ok(l),
                Err(f) => Err(Failure::Coercion(f)),
            },
        },
    }
}

/// The layer that the environment sets.
pub open spec fn env_part(env: EnvView) -> Result<LayerView, Failure> {
    match env_layer_view(env.vars) {
        Ok(l) => Ok(l),
        Err(f) => Err(Failure::Coercion(f)),
    }
}

/// The defaults, with the file's layer over them and the environment's
/// layer over that.
pub open spec fn merged(file: LayerView, env: LayerView) -> ConfigView {
    overlay(env, overlay(file, default_view()))
}

/// `c` with its log file expanded.
pub open spec fn expand_log_file(c: ConfigView, env: EnvView) -> Result<ConfigView, Failure> {
    match c.log_file {
        None => Ok(c),
        Some(f) => match shell_expansion(f, env.vars, env.home_dir) {
            Some(x) => Ok(ConfigView { log_file: Some(x), ..c }),
            None => Err(Failure::Expansion(f)),
        },
    }
}

/// The configuration that the file's text and the environment resolve to,
/// or why they do not.
pub open spec fn load_view(text: Option<Seq<char>>, env: EnvView) -> Result<ConfigView, Failure> {
    match file_part(text) {
        Err(f) => Err(f),
        Ok(file) => match env_part(env) {
            Err(f) => Err(f),
            Ok(vars) => expand_log_file(merged(file, vars), env),
        },
    }
}

fn file_layer_of(text: &str) -> (r: Result<ConfigLayer, CoreError>)
    ensures
        outcome(r, file_part(Some(text@))),
{
    match parse_table(text) {
        Err(e) => Err(CoreError::Parse(e.to_string())),
        Ok(doc) => file_layer(&doc),
    }
}

/// What loading yields: the configuration, and the default config file to
/// write where there was none.
pub struct Loaded {
    pub config: AppConfig,
    /// The text to write at the config file's path before going on.
    pub default_file: Option<String>,
}

impl View for Loaded {
    type V = (ConfigView, Option<Seq<char>>);

    open spec fn view(&self) -> (ConfigView, Option<Seq<char>>) {
        (self.config@, opt_str(self.default_file))
    }
}

/// What loading yields for the config file at `path` whose current content
/// is `existing`: where there is no file and this is no dry run, the
/// default file comes first; the configuration is resolved from the file's
/// content as it stands.
pub open spec fn load_plan(path: Seq<char>, existing: Option<Seq<char>>, dry_run: bool, env: EnvView) -> Result<
    (ConfigView, Option<Seq<char>>),
    Failure,
> {
    let write = existing is None && !dry_run;
    if write && default_file_view(path) is None {
        Err(Failure::Serialization)
    } else {
        match load_view(existing, env) {
            Err(f) => Err(f),
            Ok(c) => Ok(
                (
                    c,
                    if write {
                        default_file_view(path)
                    } else {
                        None
                    },
                ),
            ),
        }
    }
}

impl AppConfig {
    /// Resolves the configuration from the config file's text (`None` where
    /// the file does not exist) and the environment: defaults first, then
    /// the file, then the environment variables; a log file is expanded
    /// once, after the merge.
    pub fn load_from_path(file_text: Option<String>, env: &Environment) -> (r: Result<Self, CoreError>)
        ensures
            outcome(r, load_view(opt_str(file_text), env@)),
            r matches Ok(c) ==> valid(c@),
    {
        let file = match &file_text {
            None => ConfigLayer::empty(),
            Some(t) => file_layer_of(t.as_str())?,
        };
        let vars = env_layer(env)?;
        let cfg = vars.apply(file.apply(AppConfig::default()));
        proof {
            reveal_strlit("default");
        }
        match &cfg.logging.file {
            None => Ok(cfg),
            Some(f) => {
                let expanded = expand_path(f.as_str(), env)?;
                let mut cfg = cfg;
                cfg.logging.file = Some(expanded);
                Ok(cfg)
            },
        }
    }

    /// Loads the configuration for `paths`, given the config file's current
    /// content (`None` where it does not exist). Where there is no file and
    /// this is no dry run, the result carries the default file for the
    /// caller to write; a dry run never asks for a write.
    pub fn load(paths: &AppPaths, existing: Option<String>, dry_run: bool, env: &Environment) -> (r:
        Result<Loaded, CoreError>)
        ensures
            outcome(r, load_plan(paths.config_file@, opt_str(existing), dry_run, env@)),
            dry_run ==> (r matches Ok(l) ==> l.default_file is None),
            r matches Ok(l) ==> valid(l.config@),
    {
        let default_file = if existing.is_none() && !dry_run {
            Some(default_config_text(paths.config_file.as_str())?)
        } else {
            None
        };
        let config = AppConfig::load_from_path(existing, env)?;
        Ok(Loaded { config, default_file })
    }
}


/// Whether no variable of `env` sets a field of the configuration.
pub open spec fn sets_no_field(env: EnvView) -> bool {
    &&& var_value(env.vars, env_key("__PROFILE"@)) is None
    &&& var_value(env.vars, env_key("__LOGGING__LEVEL"@)) is None
    &&& var_value(env.vars, env_key("__LOGGING__FILE"@)) is None
    &&& var_value(env.vars, env_key("__RUNTIME__PARALLELISM"@)) is None
    &&& var_value(env.vars, env_key("__RUNTIME__TIMEOUT"@)) is None
    &&& var_value(env.vars, env_key("__RUNTIME__FAIL_FAST"@)) is None
    &&& var_value(env.vars, env_key("__PATHS__DATA_DIR"@)) is None
    &&& var_value(env.vars, env_key("__PATHS__STATE_DIR"@)) is None
}

/// With no config file and no variable that sets a field, loading yields
/// the defaults: profile `default`, level `info`, a timeout of sixty
/// seconds, fail-fast on, and no parallelism.
pub proof fn lemma_defaults_without_sources(env: EnvView)
    requires
        sets_no_field(env),
    ensures
        load_view(None, env) == Ok::<ConfigView, Failure>(default_view()),
{
    assert(env_layer_view(env.vars) == Ok::<LayerView, Seq<char>>(empty_layer()));
}

/// A dry run without a config file writes nothing and still yields the
/// defaults where no variable sets a field.
pub proof fn lemma_dry_run_without_file(path: Seq<char>, env: EnvView)
    requires
        sets_no_field(env),
    ensures
        load_plan(path, None, true, env) == Ok::<(ConfigView, Option<Seq<char>>), Failure>(
            (default_view(), None),
        ),
{
    lemma_defaults_without_sources(env);
}

/// Precedence, field by field: a value from the environment beats one from
/// the file, which beats the default.
pub proof fn lemma_precedence(file: LayerView, vars: LayerView)
    ensures
        merged(file, vars).profile == pick(vars.profile, pick(file.profile, default_view().profile)),
        merged(file, vars).level == pick(vars.level, pick(file.level, default_view().level)),
        merged(file, vars).log_file == pick_opt(vars.log_file, file.log_file),
        merged(file, vars).parallelism == pick_opt(vars.parallelism, file.parallelism),
        merged(file, vars).timeout == pick_opt(vars.timeout, pick_opt(file.timeout, default_view().timeout)),
        merged(file, vars).fail_fast == pick(vars.fail_fast, pick(file.fail_fast, default_view().fail_fast)),
        merged(file, vars).data_dir == pick_opt(vars.data_dir, file.data_dir),
        merged(file, vars).state_dir == pick_opt(vars.state_dir, file.state_dir),
{
}

/// Any text that TOML reads as the table the default configuration is
/// written as loads, with no variable setting a field, as the default
/// configuration again.
pub proof fn lemma_default_text_round_trip(text: Seq<char>, env: EnvView)
    requires
        toml_document(text) == Some(config_tree(default_view())),
        sets_no_field(env),
    ensures
        load_view(Some(text), env) == Ok::<ConfigView, Failure>(default_view()),
{
    reveal_strlit("default");
    lemma_table_round_trip(default_view());
    assert(env_layer_view(env.vars) == Ok::<LayerView, Seq<char>>(empty_layer()));
}

} // verus!
