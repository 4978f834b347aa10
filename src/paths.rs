//! Resolution of the application's directories and config file path.

use vstd::prelude::*;

use crate::config::{AppConfig, ConfigView, opt_str};
use crate::env::{EnvView, Environment, var_value};
use crate::error::{CoreError, Failure, describes, outcome};
use crate::text::{APP_NAME, push_char, push_str};

verus! {

/// What shell-style expansion turns `text` into, given the variables and
/// the home directory: a leading `~` becomes the home directory, `$NAME`
/// and `${NAME}` the variable's value, `${NAME:-default}` the default where
/// the variable is unset; `None` where an unset variable has no default.
pub uninterp spec fn shell_expansion(
    text: Seq<char>,
    vars: Seq<(Seq<char>, Seq<char>)>,
    home: Option<Seq<char>>,
) -> Option<Seq<char>>;

/// Whether `text` holds no `$` and does not start with `~`, so that
/// expansion keeps it.
pub open spec fn is_plain(text: Seq<char>) -> bool {
    &&& forall|i: int| 0 <= i < text.len() ==> #[trigger] text[i] != '$'
    &&& !(text.len() > 0 && text[0] == '~')
}

/// The value handed to expansion for the variable `name`; unset variables
/// are an error, as they are for the process environment.
fn expansion_lookup(env: &Environment, name: &str) -> (r: Result<Option<String>, ()>)
    ensures
        match r {
            Ok(Some(v)) => var_value(env@.vars, name@) == Some(v@),
            Ok(None) => false,
            Err(_) => var_value(env@.vars, name@) is None,
        },
{
    match env.var(name) {
        Some(v) => Ok(Some(v)),
        None => Err(()),
    }
}

/// Relies on `shellexpand::full_with_context`: expands `~` and variables
/// with the snapshot's home directory and variables; text with no `$` that
/// does not start with `~` comes back as it is.
#[verifier::external_body]
fn shell_expand(text: &str, env: &Environment) -> (r: Option<String>)
    ensures
        opt_str(r) == shell_expansion(text@, env@.vars, env@.home_dir),
        is_plain(text@) ==> opt_str(r) == Some(text@),
{
    shellexpand::full_with_context(text, || env.home_dir.clone(), |name: &str| expansion_lookup(env, name))
        .ok()
        .map(|s| s.into_owned())
}

/// Expands `~` and environment variables in a path.
pub fn expand_path(path: &str, env: &Environment) -> (r: Result<String, CoreError>)
    ensures
        match shell_expansion(path@, env@.vars, env@.home_dir) {
            Some(x) => r matches Ok(s) && s@ == x,
            None => r matches Err(CoreError::PathExpansion(p)) && p@ == path@,
        },
        is_plain(path@) ==> (r matches Ok(s) && s@ == path@),
{
    match shell_expand(path, env) {
        Some(s) => Ok(s),
        None => Err(CoreError::PathExpansion(String::from_str(path))),
    }
}

/// `name` appended to `base` as one more path component (`name` being
/// relative): a `/` goes between them unless `base` is empty or ends in one.
pub open spec fn join(base: Seq<char>, name: Seq<char>) -> Seq<char> {
    if base.len() == 0 || base.last() == '/' {
        base + name
    } else {
        base.push('/') + name
    }
}

/// Appends a relative component to a path.
pub fn join_path(base: &str, name: &str) -> (r: String)
    ensures
        r@ == join(base@, name@),
{
    let mut out = String::from_str(base);
    let n = base.unicode_len();
    if n > 0 && base.get_char(n - 1) != '/' {
        push_char(&mut out, '/');
    }
    push_str(&mut out, name);
    out
}

/// The file name of the configuration inside its directory.
pub const CONFIG_FILENAME: &'static str = "config.toml";

/// One base directory, tried in turn: the variable `xdg` where it is set and
/// not empty, then the platform's convention, then `home_rel` under the home
/// directory; the application's own directory below it.
pub open spec fn base_dir(
    env: EnvView,
    xdg: Seq<char>,
    platform: Option<Seq<char>>,
    home_rel: Seq<char>,
) -> Option<Seq<char>> {
    match var_value(env.vars, xdg) {
        Some(v) if v.len() > 0 => Some(join(v, APP_NAME@)),
        _ => match platform {
            Some(p) => Some(join(p, APP_NAME@)),
            None => match env.home_dir {
                Some(h) => Some(join(join(h, home_rel), APP_NAME@)),
                None => None,
            },
        },
    }
}

/// The application's configuration directory.
pub open spec fn config_home(env: EnvView) -> Option<Seq<char>> {
    base_dir(env, "XDG_CONFIG_HOME"@, env.config_dir, ".config"@)
}

/// The application's data directory.
pub open spec fn data_home(env: EnvView) -> Option<Seq<char>> {
    base_dir(env, "XDG_DATA_HOME"@, env.data_dir, ".local/share"@)
}

/// The application's state directory.
pub open spec fn state_home(env: EnvView) -> Option<Seq<char>> {
    base_dir(env, "XDG_STATE_HOME"@, env.state_dir, ".local/state"@)
}

/// The application's cache directory.
pub open spec fn cache_home(env: EnvView) -> Option<Seq<char>> {
    base_dir(env, "XDG_CACHE_HOME"@, env.cache_dir, ".cache"@)
}

/// Whether the path has a non-empty parent: a `/` followed, later on, by a
/// character other than `/`.
pub open spec fn has_parent(p: Seq<char>) -> bool {
    exists|i: int, j: int| #![trigger p[i], p[j]] 0 <= i < j < p.len() && p[i] == '/' && p[j] != '/'
}

/// Whether a path has a non-empty parent directory.
pub fn path_has_parent(p: &str) -> (r: bool)
    ensures
        r == has_parent(p@),
{
    let n = p.unicode_len();
    let mut seen: bool = false;
    let mut first: usize = 0;
    let mut k: usize = 0;
    while k < n
        invariant
            n == p@.len(),
            k <= n,
            seen ==> first < k && p@[first as int] == '/',
            !seen ==> forall|i: int| 0 <= i < k ==> p@[i] != '/',
            forall|i: int, j: int| 0 <= i < j < k ==> !(p@[i] == '/' && p@[j] != '/'),
        decreases n - k,
    {
        let c = p.get_char(k);
        if c == '/' {
            if !seen {
                first = k;
            }
            seen = true;
        } else if seen {
            assert(p@[first as int] == '/' && p@[k as int] != '/');
            return true;
        }
        k = k + 1;
    }
    false
}

/// The mathematical content of the resolved paths.
pub struct PathsView {
    pub config_file: Seq<char>,
    pub data_dir: Seq<char>,
    pub state_dir: Seq<char>,
    pub cache_dir: Seq<char>,
}

/// The application's config file and directories, each fully expanded.
#[derive(Clone, Debug, PartialEq, Eq)]
pub struct AppPaths {
    pub config_file: String,
    pub data_dir: String,
    pub state_dir: String,
    pub cache_dir: String,
}

impl View for AppPaths {
    type V = PathsView;

    open spec fn view(&self) -> PathsView {
        PathsView {
            config_file: self.config_file@,
            data_dir: self.data_dir@,
            state_dir: self.state_dir@,
            cache_dir: self.cache_dir@,
        }
    }
}

/// The config file that an override names: the expanded path, or the
/// conventional file inside it where it is an existing directory.
pub open spec fn override_file(expanded: Seq<char>, is_dir: bool) -> Seq<char> {
    if is_dir {
        join(expanded, CONFIG_FILENAME@)
    } else {
        expanded
    }
}

/// The config file path, from the override where there is one, else in the
/// configuration directory.
pub open spec fn config_file_view(
    override_path: Option<Seq<char>>,
    override_is_dir: bool,
    env: EnvView,
) -> Result<Seq<char>, Failure> {
    match override_path {
        Some(p) => match shell_expansion(p, env.vars, env.home_dir) {
            Some(x) => Ok(override_file(x, override_is_dir)),
            None => Err(Failure::Expansion(p)),
        },
        None => match config_home(env) {
            Some(d) => Ok(join(d, CONFIG_FILENAME@)),
            None => Err(Failure::Unresolvable("configuration"@)),
        },
    }
}

/// The paths that discovery yields, or why it fails.
pub open spec fn discover_view(
    override_path: Option<Seq<char>>,
    override_is_dir: bool,
    env: EnvView,
) -> Result<PathsView, Failure> {
    match config_file_view(override_path, override_is_dir, env) {
        Err(f) => Err(f),
        Ok(file) => if !has_parent(file) {
            Err(Failure::InvalidPath(file))
        } else {
            match (data_home(env), state_home(env), cache_home(env)) {
                (None, _, _) => Err(Failure::Unresolvable("data"@)),
                (_, None, _) => Err(Failure::Unresolvable("state"@)),
                (_, _, None) => Err(Failure::Unresolvable("cache"@)),
                (Some(d), Some(s), Some(c)) => Ok(
                    PathsView { config_file: file, data_dir: d, state_dir: s, cache_dir: c },
                ),
            }
        },
    }
}

/// Resolves one base directory; see `base_dir`.
fn resolve_base(
    env: &Environment,
    xdg: &str,
    platform: &Option<String>,
    home_rel: &str,
    kind: &str,
) -> (r: Result<String, CoreError>)
    ensures
        match base_dir(env@, xdg@, opt_str(*platform), home_rel@) {
            Some(d) => r matches Ok(s) && s@ == d,
            None => r matches Err(CoreError::DirectoryResolution(k)) && k@ == kind@,
        },
{
    if let Some(v) = env.var(xdg) {
        if v.unicode_len() > 0 {
            return Ok(join_path(v.as_str(), APP_NAME));
        }
    }
    match platform {
        Some(p) => Ok(join_path(p.as_str(), APP_NAME)),
        None => match &env.home_dir {
            Some(h) => {
                let base = join_path(h.as_str(), home_rel);
                Ok(join_path(base.as_str(), APP_NAME))
            },
            None => Err(CoreError::DirectoryResolution(String::from_str(kind))),
        },
    }
}

impl AppPaths {
    /// Discovers the application's paths. An override of the config file is
    /// expanded first; `override_is_dir` tells whether that expanded path is
    /// an existing directory, in which case the conventional file inside it
    /// is used, and otherwise the expanded path itself. Without an override
    /// the file lies in the configuration directory. Each directory is
    /// resolved from its variable, the platform's convention or the home
    /// directory, in that order.
    pub fn discover(override_path: Option<String>, override_is_dir: bool, env: &Environment) -> (r:
        Result<Self, CoreError>)
        ensures
            outcome(r, discover_view(opt_str(override_path), override_is_dir, env@)),
            override_path matches Some(p) ==> (is_plain(p@) && r is Ok ==> r.unwrap().config_file@
                == override_file(p@, override_is_dir)),
    {
        let config_file = match &override_path {
            Some(p) => {
                let expanded = expand_path(p.as_str(), env)?;
                if override_is_dir {
                    join_path(expanded.as_str(), CONFIG_FILENAME)
                } else {
                    expanded
                }
            },
            None => {
                let dir = resolve_base(
                    env,
                    "XDG_CONFIG_HOME",
                    &env.config_dir,
                    ".config",
                    "configuration",
                )?;
                join_path(dir.as_str(), CONFIG_FILENAME)
            },
        };
        if !path_has_parent(config_file.as_str()) {
            return Err(CoreError::InvalidConfigPath(config_file));
        }
        let data_dir = resolve_base(env, "XDG_DATA_HOME", &env.data_dir, ".local/share", "data")?;
        let state_dir = resolve_base(env, "XDG_STATE_HOME", &env.state_dir, ".local/state", "state")?;
        let cache_dir = resolve_base(env, "XDG_CACHE_HOME", &env.cache_dir, ".cache", "cache")?;
        Ok(AppPaths { config_file, data_dir, state_dir, cache_dir })
    }

    /// A one-line description of the config file and the data and state
    /// directories.
    pub fn summary(&self) -> (r: String)
        ensures
            r@ == "config: "@ + self.config_file@ + ", data: "@ + self.data_dir@ + ", state: "@
                + self.state_dir@,
    {
        let mut out = String::from_str("config: ");
        push_str(&mut out, self.config_file.as_str());
        push_str(&mut out, ", data: ");
        push_str(&mut out, self.data_dir.as_str());
        push_str(&mut out, ", state: ");
        push_str(&mut out, self.state_dir.as_str());
        out
    }

    /// Replaces the data and state directories by the expanded overrides
    /// that the configuration sets; the config file and the cache directory
    /// are kept.
    pub fn apply_overrides(self, cfg: &AppConfig, env: &Environment) -> (r: Result<Self, CoreError>)
        ensures
            outcome(r, overrides_view(self@, cfg@, env@)),
    {
        let mut paths = self;
        if let Some(d) = &cfg.paths.data_dir {
            paths.data_dir = expand_path(d.as_str(), env)?;
        }
        if let Some(s) = &cfg.paths.state_dir {
            paths.state_dir = expand_path(s.as_str(), env)?;
        }
        Ok(paths)
    }
}

/// The directory an override gives: the expanded override where there is
/// one, else `current`.
pub open spec fn overridden(current: Seq<char>, o: Option<Seq<char>>, env: EnvView) -> Result<
    Seq<char>,
    Failure,
> {
    match o {
        None => Ok(current),
        Some(d) => match shell_expansion(d, env.vars, env.home_dir) {
            Some(x) => Ok(x),
            None => Err(Failure::Expansion(d)),
        },
    }
}

/// The paths once the configuration's directory overrides apply.
pub open spec fn overrides_view(p: PathsView, c: ConfigView, env: EnvView) -> Result<PathsView, Failure> {
    match overridden(p.data_dir, c.data_dir, env) {
        Err(f) => Err(f),
        Ok(d) => match overridden(p.state_dir, c.state_dir, env) {
            Err(f) => Err(f),
            Ok(s) => Ok(PathsView { data_dir: d, state_dir: s, ..p }),
        },
    }
}

/// Discovery depends on its inputs alone: two discoveries with the same
/// override and the same environment agree, on the paths or on the error.
pub proof fn lemma_discover_deterministic(
    override_path: Option<Seq<char>>,
    override_is_dir: bool,
    env: EnvView,
    first: Result<AppPaths, CoreError>,
    second: Result<AppPaths, CoreError>,
)
    requires
        outcome(first, discover_view(override_path, override_is_dir, env)),
        outcome(second, discover_view(override_path, override_is_dir, env)),
    ensures
        first is Ok <==> second is Ok,
        first is Ok ==> first.unwrap()@ == second.unwrap()@,
        discover_view(override_path, override_is_dir, env) matches Err(f) ==> (first matches Err(
            e,
        ) && describes(e, f)) && (second matches Err(e) && describes(e, f)),
{
}

/// An override that names an existing directory resolves to the
/// conventional file inside it; any other override is the config file
/// itself, once expanded. Where the data, state and cache directories
/// resolve, discovery succeeds with that file (for a file override, provided
/// it has a parent directory).
pub proof fn lemma_override_resolution(p: Seq<char>, expanded: Seq<char>, env: EnvView)
    requires
        shell_expansion(p, env.vars, env.home_dir) == Some(expanded),
    ensures
        config_file_view(Some(p), true, env) == Ok::<Seq<char>, Failure>(join(expanded, CONFIG_FILENAME@)),
        config_file_view(Some(p), false, env) == Ok::<Seq<char>, Failure>(expanded),
        discover_view(Some(p), true, env) matches Ok(v) ==> v.config_file == join(expanded, CONFIG_FILENAME@),
        discover_view(Some(p), false, env) matches Ok(v) ==> v.config_file == expanded,
        data_home(env) is Some && state_home(env) is Some && cache_home(env) is Some ==> {
            &&& expanded.len() > 0 ==> discover_view(Some(p), true, env) == Ok::<PathsView, Failure>(
                PathsView {
                    config_file: join(expanded, CONFIG_FILENAME@),
                    data_dir: data_home(env).unwrap(),
                    state_dir: state_home(env).unwrap(),
                    cache_dir: cache_home(env).unwrap(),
                },
            )
            &&& has_parent(expanded) ==> discover_view(Some(p), false, env) == Ok::<PathsView, Failure>(
                PathsView {
                    config_file: expanded,
                    data_dir: data_home(env).unwrap(),
                    state_dir: state_home(env).unwrap(),
                    cache_dir: cache_home(env).unwrap(),
                },
            )
        },
{
    if expanded.len() > 0 {
        lemma_join_has_parent(expanded);
    }
}

/// Joining the conventional file name to a non-empty directory gives a path
/// with a parent.
proof fn lemma_join_has_parent(dir: Seq<char>)
    requires
        dir.len() > 0,
    ensures
        has_parent(join(dir, CONFIG_FILENAME@)),
{
    reveal_strlit("config.toml");
    let f = join(dir, CONFIG_FILENAME@);
    if dir.last() == '/' {
        let i = dir.len() - 1;
        assert(f[i] == '/');
        assert(f[i + 1] == 'c');
    } else {
        let i = dir.len() as int;
        assert(f[i] == '/');
        assert(f[i + 1] == 'c');
    }
}

} // verus!
