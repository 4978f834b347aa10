//! The files generated from the configuration model: the default config
//! file, the example configuration, the schema's metadata, and the check
//! that committed copies of them are current.

use vstd::prelude::*;

use crate::config::{AppConfig, default_view, opt_str};
use crate::document::{config_tree, render_config, toml_rendering};
use crate::error::CoreError;
use crate::paths::{CONFIG_FILENAME, join, join_path};
use crate::text::{APP_NAME, push_str, str_eq};

verus! {

/// The file name of the generated schema.
pub const SCHEMA_FILENAME: &'static str = "config.schema.json";

/// Where published schemas live; each application's schema is below it.
pub const SCHEMA_BASE_URL: &'static str = "https://raw.githubusercontent.com/byteowlz/schemas/refs/heads/main/";

/// The published schema of the application `name`.
pub open spec fn schema_url(name: Seq<char>) -> Seq<char> {
    SCHEMA_BASE_URL@ + name + "/"@ + name + ".config.schema.json"@
}

/// The line that points editors at the schema.
pub open spec fn pragma_line(url: Seq<char>) -> Seq<char> {
    "\"$schema\" = \""@ + url + "\"\n"@
}

/// The header of the example configuration of `name`.
pub open spec fn example_header(name: Seq<char>) -> Seq<char> {
    "\n# Configuration for "@ + name + ".\n# Copy this file to $XDG_CONFIG_HOME/"@ + name
        + "/config.toml and adjust as needed.\n\n"@
}

/// The header of a config file written at `path`.
pub open spec fn config_header(path: Seq<char>) -> Seq<char> {
    "# Configuration for "@ + APP_NAME@ + "\n# File: "@ + path + "\n\n"@
}

/// The TOML text of the default configuration.
pub open spec fn default_body() -> Option<Seq<char>> {
    toml_rendering(config_tree(default_view()))
}

/// The example configuration of `name`: the schema line, a header, then the
/// defaults.
pub open spec fn example_view(name: Seq<char>) -> Option<Seq<char>> {
    match default_body() {
        Some(body) => Some(pragma_line(schema_url(name)) + example_header(name) + body),
        None => None,
    }
}

/// The config file written at `path` when there is none: the schema line,
/// a header naming the application and the file, then the defaults.
pub open spec fn default_file_view(path: Seq<char>) -> Option<Seq<char>> {
    match default_body() {
        Some(body) => Some(pragma_line(schema_url(APP_NAME@)) + "\n"@ + config_header(path) + body),
        None => None,
    }
}

fn schema_url_of(name: &str) -> (r: String)
    ensures
        r@ == schema_url(name@),
{
    let mut out = String::from_str(SCHEMA_BASE_URL);
    push_str(&mut out, name);
    push_str(&mut out, "/");
    push_str(&mut out, name);
    push_str(&mut out, ".config.schema.json");
    out
}

fn push_pragma(out: &mut String, name: &str)
    ensures
        final(out)@ == old(out)@ + pragma_line(schema_url(name@)),
{
    let url = schema_url_of(name);
    push_str(out, "\"$schema\" = \"");
    push_str(out, url.as_str());
    push_str(out, "\"\n");
}

fn default_text() -> (r: Result<String, CoreError>)
    ensures
        match default_body() {
            Some(b) => r matches Ok(s) && s@ == b,
            None => r matches Err(e) && e is Serialization,
        },
{
    let cfg = AppConfig::default();
    render_config(&cfg)
}

/// The example configuration of `project_name`.
pub fn generate_example_config(project_name: &str) -> (r: Result<String, CoreError>)
    ensures
        match example_view(project_name@) {
            Some(t) => r matches Ok(s) && s@ == t,
            None => r matches Err(e) && e is Serialization,
        },
{
    let body = default_text()?;
    let mut out = String::new();
    push_pragma(&mut out, project_name);
    push_str(&mut out, "\n# Configuration for ");
    push_str(&mut out, project_name);
    push_str(&mut out, ".\n# Copy this file to $XDG_CONFIG_HOME/");
    push_str(&mut out, project_name);
    push_str(&mut out, "/config.toml and adjust as needed.\n\n");
    push_str(&mut out, body.as_str());
    Ok(out)
}

/// The header of a config file written at `path`.
pub fn default_config_header(path: &str) -> (r: String)
    ensures
        r@ == config_header(path@),
{
    let mut out = String::from_str("# Configuration for ");
    push_str(&mut out, APP_NAME);
    push_str(&mut out, "\n# File: ");
    push_str(&mut out, path);
    push_str(&mut out, "\n\n");
    out
}

/// The config file to write at `path` when there is none.
pub fn default_config_text(path: &str) -> (r: Result<String, CoreError>)
    ensures
        match default_file_view(path@) {
            Some(t) => r matches Ok(s) && s@ == t,
            None => r matches Err(e) && e is Serialization,
        },
{
    let body = default_text()?;
    let mut out = String::new();
    push_pragma(&mut out, APP_NAME);
    push_str(&mut out, "\n");
    let header = default_config_header(path);
    push_str(&mut out, header.as_str());
    push_str(&mut out, body.as_str());
    Ok(out)
}

/// The schema's identifier, below the repository's URL.
pub fn schema_id(repo_url: &str) -> (r: String)
    ensures
        r@ == repo_url@ + "/schemas/config.schema.json"@,
{
    let mut out = String::from_str(repo_url);
    push_str(&mut out, "/schemas/config.schema.json");
    out
}

/// The schema's title.
pub fn schema_title(project_name: &str) -> (r: String)
    ensures
        r@ == project_name@ + " configuration"@,
{
    let mut out = String::from_str(project_name);
    push_str(&mut out, " configuration");
    out
}

/// The schema's description.
pub fn schema_description(project_name: &str) -> (r: String)
    ensures
        r@ == "Configuration schema for "@ + project_name@,
{
    let mut out = String::from_str("Configuration schema for ");
    push_str(&mut out, project_name);
    out
}

/// What is wrong with the reference copy at `path` of a file that should
/// read `expected`: missing, stale, or nothing.
pub open spec fn file_problem(path: Seq<char>, expected: Seq<char>, existing: Option<Seq<char>>) -> Option<
    Seq<char>,
> {
    match existing {
        None => Some(path + " does not exist; regenerate it"@),
        Some(t) => if t == expected {
            None
        } else {
            Some(path + " is out of date; regenerate it"@)
        },
    }
}

/// The message, if any, as a list of zero or one.
pub open spec fn as_seq(o: Option<Seq<char>>) -> Seq<Seq<char>> {
    match o {
        Some(m) => seq![m],
        None => Seq::empty(),
    }
}

/// Every discrepancy between the generated files and their reference
/// copies in `dir`, schema first.
pub open spec fn problems(
    dir: Seq<char>,
    schema: Seq<char>,
    config: Seq<char>,
    existing_schema: Option<Seq<char>>,
    existing_config: Option<Seq<char>>,
) -> Seq<Seq<char>> {
    as_seq(file_problem(join(dir, SCHEMA_FILENAME@), schema, existing_schema)) + as_seq(
        file_problem(join(dir, CONFIG_FILENAME@), config, existing_config),
    )
}

/// The view of a list of strings.
pub open spec fn strings_view(v: Seq<String>) -> Seq<Seq<char>> {
    v.map_values(|s: String| s@)
}

fn check_file(
    problems: &mut Vec<String>,
    dir: &str,
    name: &str,
    expected: &str,
    existing: &Option<String>,
)
    ensures
        strings_view(final(problems)@) == strings_view(old(problems)@) + as_seq(
            file_problem(join(dir@, name@), expected@, opt_str(*existing)),
        ),
{
    let path = join_path(dir, name);
    let ghost before = strings_view(problems@);
    match existing {
        None => {
            let mut m = path;
            push_str(&mut m, " does not exist; regenerate it");
            problems.push(m);
        },
        Some(t) => {
            if !str_eq(t.as_str(), expected) {
                let mut m = path;
                push_str(&mut m, " is out of date; regenerate it");
                problems.push(m);
            }
        },
    }
    assert(strings_view(problems@) == before + as_seq(
        file_problem(join(dir@, name@), expected@, opt_str(*existing)),
    ));
}

/// Compares the generated schema and example configuration with the
/// reference copies found in `examples_dir` (`None` where a file is
/// missing), and reports every discrepancy at once.
pub fn validate_against_examples(
    examples_dir: &str,
    schema: &str,
    config: &str,
    existing_schema: Option<String>,
    existing_config: Option<String>,
) -> (r: Result<(), CoreError>)
    ensures
        ({
            let p = problems(
                examples_dir@,
                schema@,
                config@,
                opt_str(existing_schema),
                opt_str(existing_config),
            );
            &&& p.len() == 0 ==> r is Ok
            &&& p.len() > 0 ==> (r matches Err(CoreError::Consistency(v)) && strings_view(v@) == p)
        }),
{
    let mut found: Vec<String> = Vec::new();
    check_file(&mut found, examples_dir, SCHEMA_FILENAME, schema, &existing_schema);
    check_file(&mut found, examples_dir, CONFIG_FILENAME, config, &existing_config);
    assert(strings_view(Seq::<String>::empty()) == Seq::<Seq<char>>::empty());
    if found.len() == 0 {
        Ok(())
    } else {
        Err(CoreError::Consistency(found))
    }
}


/// Whether one of the messages begins with `path`.
pub open spec fn names_file(messages: Seq<Seq<char>>, path: Seq<char>) -> bool {
    exists|i: int|
        0 <= i < messages.len() && #[trigger] messages[i].len() >= path.len() && messages[i].subrange(
            0,
            path.len() as int,
        ) == path
}

/// The check finds nothing exactly when both reference copies hold the
/// generated text; a reference copy that is missing or differs is reported
/// by its path.
pub proof fn lemma_validation(
    dir: Seq<char>,
    schema: Seq<char>,
    config: Seq<char>,
    existing_schema: Option<Seq<char>>,
    existing_config: Option<Seq<char>>,
)
    ensures
        problems(dir, schema, config, existing_schema, existing_config).len() == 0 <==> (
        existing_schema == Some(schema) && existing_config == Some(config)),
        existing_schema != Some(schema) ==> names_file(
            problems(dir, schema, config, existing_schema, existing_config),
            join(dir, SCHEMA_FILENAME@),
        ),
        existing_config != Some(config) ==> names_file(
            problems(dir, schema, config, existing_schema, existing_config),
            join(dir, CONFIG_FILENAME@),
        ),
{
    let p = problems(dir, schema, config, existing_schema, existing_config);
    let sp = join(dir, SCHEMA_FILENAME@);
    let cp = join(dir, CONFIG_FILENAME@);
    let first = as_seq(file_problem(sp, schema, existing_schema));
    let second = as_seq(file_problem(cp, config, existing_config));
    assert(p == first + second);
    if existing_schema != Some(schema) {
        let m = file_problem(sp, schema, existing_schema).unwrap();
        assert(p[0] == m);
        assert(m.subrange(0, sp.len() as int) == sp);
    }
    if existing_config != Some(config) {
        let m = file_problem(cp, config, existing_config).unwrap();
        assert(p[first.len() as int] == m);
        assert(m.subrange(0, cp.len() as int) == cp);
    }
}

} // verus!
