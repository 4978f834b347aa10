//! A snapshot of the process environment that resolution reads.

use vstd::prelude::*;

use crate::config::{ConfigLayer, LayerView, LogLevel, opt_str};
use crate::error::CoreError;
use crate::text::{APP_NAME, env_prefix, parse_positive, positive_decimal, prefix_of, push_str, str_eq};

verus! {

/// The view of a list of environment variables.
pub open spec fn vars_view(v: Seq<(String, String)>) -> Seq<(Seq<char>, Seq<char>)> {
    v.map_values(|p: (String, String)| (p.0@, p.1@))
}

/// The value of the variable `name`: the last entry of that name wins.
pub open spec fn var_value(vars: Seq<(Seq<char>, Seq<char>)>, name: Seq<char>) -> Option<Seq<char>>
    decreases vars.len(),
{
    if vars.len() == 0 {
        None
    } else if vars.last().0 == name {
        Some(vars.last().1)
    } else {
        var_value(vars.drop_last(), name)
    }
}

/// The mathematical content of an environment snapshot.
pub struct EnvView {
    pub vars: Seq<(Seq<char>, Seq<char>)>,
    pub home_dir: Option<Seq<char>>,
    pub config_dir: Option<Seq<char>>,
    pub data_dir: Option<Seq<char>>,
    pub state_dir: Option<Seq<char>>,
    pub cache_dir: Option<Seq<char>>,
}

/// What configuration resolution reads from its surroundings: the
/// environment variables, the home directory and the platform's
/// conventional base directories.
#[derive(Clone, Debug)]
pub struct Environment {
    /// Environment variables, as name and value.
    pub vars: Vec<(String, String)>,
    /// The user's home directory.
    pub home_dir: Option<String>,
    /// The platform's configuration base directory.
    pub config_dir: Option<String>,
    /// The platform's data base directory.
    pub data_dir: Option<String>,
    /// The platform's state base directory.
    pub state_dir: Option<String>,
    /// The platform's cache base directory.
    pub cache_dir: Option<String>,
}

impl View for Environment {
    type V = EnvView;

    open spec fn view(&self) -> EnvView {
        EnvView {
            vars: vars_view(self.vars@),
            home_dir: opt_str(self.home_dir),
            config_dir: opt_str(self.config_dir),
            data_dir: opt_str(self.data_dir),
            state_dir: opt_str(self.state_dir),
            cache_dir: opt_str(self.cache_dir),
        }
    }
}

/// Relies on `dirs::home_dir`: the user's home directory, where one is
/// known and is valid Unicode.
#[verifier::external_body]
fn platform_home_dir() -> Option<String> {
    dirs::home_dir().and_then(|p| p.into_os_string().into_string().ok())
}

/// Relies on `dirs::config_dir`: the platform's configuration base directory.
#[verifier::external_body]
fn platform_config_dir() -> Option<String> {
    dirs::config_dir().and_then(|p| p.into_os_string().into_string().ok())
}

/// Relies on `dirs::data_dir`: the platform's data base directory.
#[verifier::external_body]
fn platform_data_dir() -> Option<String> {
    dirs::data_dir().and_then(|p| p.into_os_string().into_string().ok())
}

/// Relies on `dirs::state_dir`: the platform's state base directory.
#[verifier::external_body]
fn platform_state_dir() -> Option<String> {
    dirs::state_dir().and_then(|p| p.into_os_string().into_string().ok())
}

/// Relies on `dirs::cache_dir`: the platform's cache base directory.
#[verifier::external_body]
fn platform_cache_dir() -> Option<String> {
    dirs::cache_dir().and_then(|p| p.into_os_string().into_string().ok())
}

impl Environment {
    /// A snapshot holding `vars` and the platform's home and base
    /// directories as they are now.
    pub fn detect(vars: Vec<(String, String)>) -> (r: Environment)
        ensures
            r.vars == vars,
    {
        Environment {
            vars,
            home_dir: platform_home_dir(),
            config_dir: platform_config_dir(),
            data_dir: platform_data_dir(),
            state_dir: platform_state_dir(),
            cache_dir: platform_cache_dir(),
        }
    }

    /// The value of the variable `name`, if it is set.
    pub fn var(&self, name: &str) -> (r: Option<String>)
        ensures
            opt_str(r) == var_value(self@.vars, name@),
    {
        let n = self.vars.len();
        let mut found: Option<String> = None;
        let mut i: usize = 0;
        while i < n
            invariant
                n == self.vars@.len(),
                i <= n,
                opt_str(found) == var_value(vars_view(self.vars@).subrange(0, i as int), name@),
            decreases n - i,
        {
            let ghost all = vars_view(self.vars@);
            assert(all.subrange(0, i + 1).drop_last() == all.subrange(0, i as int));
            let entry = &self.vars[i];
            if str_eq(entry.0.as_str(), name) {
                found = Some(entry.1.clone());
            }
            i = i + 1;
        }
        assert(vars_view(self.vars@).subrange(0, n as int) == vars_view(self.vars@));
        found
    }
}

/// The level that `s` names.
pub open spec fn level_named(s: Seq<char>) -> Option<LogLevel> {
    if s == "error"@ {
        Some(LogLevel::Error)
    } else if s == "warn"@ {
        Some(LogLevel::Warn)
    } else if s == "info"@ {
        Some(LogLevel::Info)
    } else if s == "debug"@ {
        Some(LogLevel::Debug)
    } else if s == "trace"@ {
        Some(LogLevel::Trace)
    } else {
        None
    }
}

/// The truth value that `s` names.
pub open spec fn bool_named(s: Seq<char>) -> Option<bool> {
    if s == "true"@ {
        Some(true)
    } else if s == "false"@ {
        Some(false)
    } else {
        None
    }
}

impl LogLevel {
    /// The level of the given name, if it is one.
    pub fn from_name(s: &str) -> (r: Option<LogLevel>)
        ensures
            r == level_named(s@),
    {
        if str_eq(s, "error") {
            Some(LogLevel::Error)
        } else if str_eq(s, "warn") {
            Some(LogLevel::Warn)
        } else if str_eq(s, "info") {
            Some(LogLevel::Info)
        } else if str_eq(s, "debug") {
            Some(LogLevel::Debug)
        } else if str_eq(s, "trace") {
            Some(LogLevel::Trace)
        } else {
            None
        }
    }
}

/// Reads `true` or `false`.
pub fn parse_bool(s: &str) -> (r: Option<bool>)
    ensures
        r == bool_named(s@),
{
    if str_eq(s, "true") {
        Some(true)
    } else if str_eq(s, "false") {
        Some(false)
    } else {
        None
    }
}

/// The full name of the variable that sets a field: the application prefix
/// followed by the field's path, each part after `__`.
pub open spec fn env_key(suffix: Seq<char>) -> Seq<char> {
    prefix_of(APP_NAME@) + suffix
}

/// The largest parallelism a `usize` holds.
pub open spec fn max_parallelism() -> u64 {
    usize::MAX as u64
}

/// The level that a variable's value names; `None` where there is no value
/// or it names none.
pub open spec fn level_of(o: Option<Seq<char>>) -> Option<LogLevel> {
    match o {
        Some(s) => level_named(s),
        None => None,
    }
}

/// The truth value that a variable's value names, if any.
pub open spec fn bool_of(o: Option<Seq<char>>) -> Option<bool> {
    match o {
        Some(s) => bool_named(s),
        None => None,
    }
}

/// The positive integer, at most `max`, that a variable's value writes.
pub open spec fn positive_of(o: Option<Seq<char>>, max: u64) -> Option<u64> {
    match o {
        Some(s) => positive_decimal(s, max),
        None => None,
    }
}

/// The same number, as a `usize`.
pub open spec fn usize_of(o: Option<u64>) -> Option<usize> {
    match o {
        Some(v) => Some(v as usize),
        None => None,
    }
}

/// Whether a value is given and does not convert.
pub open spec fn fails<T>(raw: Option<Seq<char>>, converted: Option<T>) -> bool {
    raw is Some && converted is None
}

/// The layer that the environment variables set, or the first field (in
/// declaration order) whose value does not have the field's type.
pub open spec fn env_layer_view(vars: Seq<(Seq<char>, Seq<char>)>) -> Result<LayerView, Seq<char>> {
    let profile = var_value(vars, env_key("__PROFILE"@));
    let level = var_value(vars, env_key("__LOGGING__LEVEL"@));
    let log_file = var_value(vars, env_key("__LOGGING__FILE"@));
    let parallelism = var_value(vars, env_key("__RUNTIME__PARALLELISM"@));
    let timeout = var_value(vars, env_key("__RUNTIME__TIMEOUT"@));
    let fail_fast = var_value(vars, env_key("__RUNTIME__FAIL_FAST"@));
    let data_dir = var_value(vars, env_key("__PATHS__DATA_DIR"@));
    let state_dir = var_value(vars, env_key("__PATHS__STATE_DIR"@));
    if profile is Some && profile.unwrap().len() == 0 {
        Err("profile"@)
    } else if fails(level, level_of(level)) {
        Err("logging.level"@)
    } else if fails(parallelism, positive_of(parallelism, max_parallelism())) {
        Err("runtime.parallelism"@)
    } else if fails(timeout, positive_of(timeout, u64::MAX)) {
        Err("runtime.timeout"@)
    } else if fails(fail_fast, bool_of(fail_fast)) {
        Err("runtime.fail_fast"@)
    } else {
        Ok(
            LayerView {
                profile,
                level: level_of(level),
                log_file,
                parallelism: usize_of(positive_of(parallelism, max_parallelism())),
                timeout: positive_of(timeout, u64::MAX),
                fail_fast: bool_of(fail_fast),
                data_dir,
                state_dir,
            },
        )
    }
}

/// Whether an executable layer result is the one the spec describes, with a
/// type error naming the same field.
pub open spec fn layer_result_matches(
    r: Result<ConfigLayer, CoreError>,
    s: Result<LayerView, Seq<char>>,
) -> bool {
    match (r, s) {
        (Ok(l), Ok(v)) => l@ == v,
        (Err(CoreError::TypeCoercion(f)), Err(g)) => f@ == g,
        _ => false,
    }
}

/// The value of the variable that sets a field.
fn field_var(env: &Environment, suffix: &str) -> (r: Option<String>)
    ensures
        opt_str(r) == var_value(env@.vars, env_key(suffix@)),
{
    let mut key = env_prefix();
    push_str(&mut key, suffix);
    env.var(key.as_str())
}

fn coercion_error(field: &str) -> (r: CoreError)
    ensures
        r matches CoreError::TypeCoercion(f) && f@ == field@,
{
    CoreError::TypeCoercion(String::from_str(field))
}

/// The layer that the environment's variables set: each field is read from
/// the variable named by the application prefix and the field's path, and
/// converted to the field's type.
pub fn env_layer(env: &Environment) -> (r: Result<ConfigLayer, CoreError>)
    ensures
        layer_result_matches(r, env_layer_view(env@.vars)),
{
    let profile = field_var(env, "__PROFILE");
    let level = field_var(env, "__LOGGING__LEVEL");
    let log_file = field_var(env, "__LOGGING__FILE");
    let parallelism = field_var(env, "__RUNTIME__PARALLELISM");
    let timeout = field_var(env, "__RUNTIME__TIMEOUT");
    let fail_fast = field_var(env, "__RUNTIME__FAIL_FAST");
    let data_dir = field_var(env, "__PATHS__DATA_DIR");
    let state_dir = field_var(env, "__PATHS__STATE_DIR");
    if let Some(p) = &profile {
        if p.unicode_len() == 0 {
            return Err(coercion_error("profile"));
        }
    }
    let level_v = match &level {
        Some(s) => {
            let v = LogLevel::from_name(s.as_str());
            if v.is_none() {
                return Err(coercion_error("logging.level"));
            }
            v
        },
        None => None,
    };
    let parallelism_v = match &parallelism {
        Some(s) => {
            let v = parse_positive(s.as_str(), usize::MAX as u64);
            match v {
                Some(n) => Some(n as usize),
                None => {
                    return Err(coercion_error("runtime.parallelism"));
                },
            }
        },
        None => None,
    };
    let timeout_v = match &timeout {
        Some(s) => {
            let v = parse_positive(s.as_str(), u64::MAX);
            if v.is_none() {
                return Err(coercion_error("runtime.timeout"));
            }
            v
        },
        None => None,
    };
    let fail_fast_v = match &fail_fast {
        Some(s) => {
            let v = parse_bool(s.as_str());
            if v.is_none() {
                return Err(coercion_error("runtime.fail_fast"));
            }
            v
        },
        None => None,
    };
    Ok(
        ConfigLayer {
            profile,
            level: level_v,
            log_file,
            parallelism: parallelism_v,
            timeout: timeout_v,
            fail_fast: fail_fast_v,
            data_dir,
            state_dir,
        },
    )
}

} // verus!
