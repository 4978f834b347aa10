//! The configuration model: its fields, its defaults and the precedence
//! merge of partial layers over it.

use vstd::prelude::*;

verus! {

/// The view of an optional string.
pub open spec fn opt_str(o: Option<String>) -> Option<Seq<char>> {
    match o {
        Some(s) => Some(s@),
        None => None,
    }
}

/// How much the application logs.
#[derive(Clone, Copy, Debug, PartialEq, Eq, Structural)]
pub enum LogLevel {
    Error,
    Warn,
    Info,
    Debug,
    Trace,
}

impl LogLevel {
    /// The name of the level as it is written in files and variables.
    pub open spec fn name(self) -> Seq<char> {
        match self {
            LogLevel::Error => "error"@,
            LogLevel::Warn => "warn"@,
            LogLevel::Info => "info"@,
            LogLevel::Debug => "debug"@,
            LogLevel::Trace => "trace"@,
        }
    }

    pub fn as_str(&self) -> (r: &'static str)
        ensures
            r@ == self.name(),
    {
        match self {
            LogLevel::Error => "error",
            LogLevel::Warn => "warn",
            LogLevel::Info => "info",
            LogLevel::Debug => "debug",
            LogLevel::Trace => "trace",
        }
    }
}

/// The mathematical content of a configuration.
pub struct ConfigView {
    pub profile: Seq<char>,
    pub level: LogLevel,
    pub log_file: Option<Seq<char>>,
    pub parallelism: Option<usize>,
    pub timeout: Option<u64>,
    pub fail_fast: bool,
    pub data_dir: Option<Seq<char>>,
    pub state_dir: Option<Seq<char>>,
}

/// Application configuration.
#[derive(Clone, Debug, PartialEq, Eq)]
pub struct AppConfig {
    /// Active configuration profile name.
    pub profile: String,
    /// Logging configuration.
    pub logging: LoggingConfig,
    /// Runtime behaviour configuration.
    pub runtime: RuntimeConfig,
    /// Directory path overrides.
    pub paths: PathsConfig,
}

/// Logging configuration.
#[derive(Clone, Debug, PartialEq, Eq)]
pub struct LoggingConfig {
    /// Log level.
    pub level: LogLevel,
    /// Optional file to write logs to.
    pub file: Option<String>,
}

/// Runtime behaviour configuration.
#[derive(Clone, Debug, PartialEq, Eq)]
pub struct RuntimeConfig {
    /// Number of parallel tasks; when absent the core count is used.
    pub parallelism: Option<usize>,
    /// Timeout in seconds for operations.
    pub timeout: Option<u64>,
    /// Stop on the first error instead of continuing.
    pub fail_fast: bool,
}

/// Directory path overrides.
#[derive(Clone, Debug, PartialEq, Eq)]
pub struct PathsConfig {
    /// Override of the data directory.
    pub data_dir: Option<String>,
    /// Override of the state directory.
    pub state_dir: Option<String>,
}

impl View for AppConfig {
    type V = ConfigView;

    open spec fn view(&self) -> ConfigView {
        ConfigView {
            profile: self.profile@,
            level: self.logging.level,
            log_file: opt_str(self.logging.file),
            parallelism: self.runtime.parallelism,
            timeout: self.runtime.timeout,
            fail_fast: self.runtime.fail_fast,
            data_dir: opt_str(self.paths.data_dir),
            state_dir: opt_str(self.paths.state_dir),
        }
    }
}

/// Whether the fields of `c` hold values the model allows: a non-empty
/// profile, and positive parallelism and timeout where they are set.
pub open spec fn valid(c: ConfigView) -> bool {
    &&& c.profile.len() > 0
    &&& (c.parallelism matches Some(p) ==> p > 0)
    &&& (c.timeout matches Some(t) ==> t > 0)
}

/// The timeout, in seconds, that applies when no source sets one.
pub const DEFAULT_TIMEOUT: u64 = 60;

/// The configuration that holds when no source sets anything.
pub open spec fn default_view() -> ConfigView {
    ConfigView {
        profile: "default"@,
        level: LogLevel::Info,
        log_file: None,
        parallelism: None,
        timeout: Some(DEFAULT_TIMEOUT),
        fail_fast: true,
        data_dir: None,
        state_dir: None,
    }
}

impl Default for LoggingConfig {
    fn default() -> (r: Self)
        ensures
            r.level == LogLevel::Info,
            r.file is None,
    {
        LoggingConfig { level: LogLevel::Info, file: None }
    }
}

impl Default for RuntimeConfig {
    fn default() -> (r: Self)
        ensures
            r.parallelism is None,
            r.timeout == Some(DEFAULT_TIMEOUT),
            r.fail_fast,
    {
        RuntimeConfig { parallelism: None, timeout: Some(DEFAULT_TIMEOUT), fail_fast: true }
    }
}

impl Default for PathsConfig {
    fn default() -> (r: Self)
        ensures
            r.data_dir is None,
            r.state_dir is None,
    {
        PathsConfig { data_dir: None, state_dir: None }
    }
}

impl Default for AppConfig {
    fn default() -> (r: Self)
        ensures
            r@ == default_view(),
    {
        AppConfig {
            profile: String::from_str("default"),
            logging: LoggingConfig::default(),
            runtime: RuntimeConfig::default(),
            paths: PathsConfig::default(),
        }
    }
}

impl AppConfig {
    /// Replaces the profile when a value is given.
    pub fn with_profile_override(self, profile: Option<String>) -> (r: Self)
        ensures
            r@ == (match profile {
                Some(p) => ConfigView { profile: p@, ..self@ },
                None => self@,
            }),
    {
        let mut cfg = self;
        match profile {
            Some(p) => {
                cfg.profile = p;
            },
            None => {},
        }
        cfg
    }
}

/// The mathematical content of a layer: the fields one source sets.
pub struct LayerView {
    pub profile: Option<Seq<char>>,
    pub level: Option<LogLevel>,
    pub log_file: Option<Seq<char>>,
    pub parallelism: Option<usize>,
    pub timeout: Option<u64>,
    pub fail_fast: Option<bool>,
    pub data_dir: Option<Seq<char>>,
    pub state_dir: Option<Seq<char>>,
}

/// The fields that one configuration source sets; `None` falls through to
/// the layer below.
#[derive(Clone, Debug, PartialEq, Eq)]
pub struct ConfigLayer {
    pub profile: Option<String>,
    pub level: Option<LogLevel>,
    pub log_file: Option<String>,
    pub parallelism: Option<usize>,
    pub timeout: Option<u64>,
    pub fail_fast: Option<bool>,
    pub data_dir: Option<String>,
    pub state_dir: Option<String>,
}

impl View for ConfigLayer {
    type V = LayerView;

    open spec fn view(&self) -> LayerView {
        LayerView {
            profile: opt_str(self.profile),
            level: self.level,
            log_file: opt_str(self.log_file),
            parallelism: self.parallelism,
            timeout: self.timeout,
            fail_fast: self.fail_fast,
            data_dir: opt_str(self.data_dir),
            state_dir: opt_str(self.state_dir),
        }
    }
}

/// The layer that sets nothing.
pub open spec fn empty_layer() -> LayerView {
    LayerView {
        profile: None,
        level: None,
        log_file: None,
        parallelism: None,
        timeout: None,
        fail_fast: None,
        data_dir: None,
        state_dir: None,
    }
}

/// `upper` if it is set, else `lower`.
pub open spec fn pick<T>(upper: Option<T>, lower: T) -> T {
    match upper {
        Some(v) => v,
        None => lower,
    }
}

/// `upper` if it is set, else `lower`, for fields that are optional in the
/// configuration too.
pub open spec fn pick_opt<T>(upper: Option<T>, lower: Option<T>) -> Option<T> {
    match upper {
        Some(v) => Some(v),
        None => lower,
    }
}

/// The configuration `c` with every field that `l` sets replaced.
pub open spec fn overlay(l: LayerView, c: ConfigView) -> ConfigView {
    ConfigView {
        profile: pick(l.profile, c.profile),
        level: pick(l.level, c.level),
        log_file: pick_opt(l.log_file, c.log_file),
        parallelism: pick_opt(l.parallelism, c.parallelism),
        timeout: pick_opt(l.timeout, c.timeout),
        fail_fast: pick(l.fail_fast, c.fail_fast),
        data_dir: pick_opt(l.data_dir, c.data_dir),
        state_dir: pick_opt(l.state_dir, c.state_dir),
    }
}

impl ConfigLayer {
    /// The layer that sets nothing.
    pub fn empty() -> (r: Self)
        ensures
            r@ == empty_layer(),
    {
        ConfigLayer {
            profile: None,
            level: None,
            log_file: None,
            parallelism: None,
            timeout: None,
            fail_fast: None,
            data_dir: None,
            state_dir: None,
        }
    }

    /// Applies this layer over `base`: each field this layer sets replaces
    /// the one of `base`, the others are kept.
    pub fn apply(self, base: AppConfig) -> (r: AppConfig)
        ensures
            r@ == overlay(self@, base@),
    {
        let mut cfg = base;
        if let Some(p) = self.profile {
            cfg.profile = p;
        }
        if let Some(v) = self.level {
            cfg.logging.level = v;
        }
        if let Some(v) = self.log_file {
            cfg.logging.file = Some(v);
        }
        if let Some(v) = self.parallelism {
            cfg.runtime.parallelism = Some(v);
        }
        if let Some(v) = self.timeout {
            cfg.runtime.timeout = Some(v);
        }
        if let Some(v) = self.fail_fast {
            cfg.runtime.fail_fast = v;
        }
        if let Some(v) = self.data_dir {
            cfg.paths.data_dir = Some(v);
        }
        if let Some(v) = self.state_dir {
            cfg.paths.state_dir = Some(v);
        }
        cfg
    }
}

} // verus!
