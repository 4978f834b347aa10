//! Reading and writing the configuration file's TOML document.
//!
//! Parsing and printing TOML is the `toml` crate's work; this module reads
//! the configuration's fields out of a parsed document, and builds the
//! document that a configuration is written as.

use vstd::prelude::*;

use crate::config::{AppConfig, ConfigLayer, ConfigView, LayerView, LogLevel, default_view, opt_str, overlay, valid};
use crate::env::{level_named, layer_result_matches, max_parallelism, usize_of};
use crate::error::CoreError;

verus! {

#[verifier::external_type_specification]
#[verifier::external_body]
#[verifier::reject_recursive_types(K)]
#[verifier::reject_recursive_types(V)]
pub struct ExTomlMap<K, V>(toml::map::Map<K, V>);

#[verifier::external_type_specification]
#[verifier::external_body]
pub struct ExTomlValue(toml::Value);

#[verifier::external_type_specification]
#[verifier::external_body]
pub struct ExTomlDeError(toml::de::Error);

#[verifier::external_type_specification]
#[verifier::external_body]
pub struct ExTomlSerError(toml::ser::Error);

/// What a key of a TOML table holds, as far as configuration reads it.
pub enum TomlNode {
    Text(Seq<char>),
    Integer(int),
    Boolean(bool),
    Table(Map<Seq<char>, TomlNode>),
    /// A float, a date-time or an array.
    Other,
}

/// What a TOML table holds: its keys and the value under each.
pub uninterp spec fn table_entries(t: toml::Table) -> Map<Seq<char>, TomlNode>;

/// The table that `toml` parses a document into; `None` where it rejects
/// the text.
pub uninterp spec fn toml_document(text: Seq<char>) -> Option<Map<Seq<char>, TomlNode>>;

/// The text that `toml` prints a table holding `doc` as; `None` where it
/// cannot. It is only stated of tables that hold no `Other` value.
pub uninterp spec fn toml_rendering(doc: Map<Seq<char>, TomlNode>) -> Option<Seq<char>>;

/// A table with no keys.
pub open spec fn empty_doc() -> Map<Seq<char>, TomlNode> {
    Map::empty()
}

/// A value read out of, or to be put into, a TOML table.
pub enum TomlEntry {
    Text(String),
    Integer(i64),
    Boolean(bool),
    Section(toml::Table),
    Other,
}

impl TomlEntry {
    pub open spec fn node(&self) -> TomlNode {
        match self {
            TomlEntry::Text(s) => TomlNode::Text(s@),
            TomlEntry::Integer(i) => TomlNode::Integer(*i as int),
            TomlEntry::Boolean(b) => TomlNode::Boolean(*b),
            TomlEntry::Section(t) => TomlNode::Table(table_entries(*t)),
            TomlEntry::Other => TomlNode::Other,
        }
    }
}

/// Relies on `toml::Table`'s `FromStr` (that is, `toml::from_str`): parses a
/// whole document into its top-level table.
#[verifier::external_body]
pub(crate) fn parse_table(text: &str) -> (r: Result<toml::Table, toml::de::Error>)
    ensures
        match r {
            Ok(t) => toml_document(text@) == Some(table_entries(t)),
            Err(_) => toml_document(text@) is None,
        },
{
    text.parse::<toml::Table>()
}

/// Relies on `toml::map::Map::get`: the value stored under `key`, told
/// apart by kind.
#[verifier::external_body]
fn table_get(t: &toml::Table, key: &str) -> (r: Option<TomlEntry>)
    ensures
        match r {
            Some(e) => table_entries(*t).contains_key(key@) && table_entries(*t)[key@] == e.node(),
            None => !table_entries(*t).contains_key(key@),
        },
{
    match t.get(key) {
        None => None,
        Some(toml::Value::String(s)) => Some(TomlEntry::Text(s.clone())),
        Some(toml::Value::Integer(i)) => Some(TomlEntry::Integer(*i)),
        Some(toml::Value::Boolean(b)) => Some(TomlEntry::Boolean(*b)),
        Some(toml::Value::Table(sub)) => Some(TomlEntry::Section(sub.clone())),
        Some(_) => Some(TomlEntry::Other),
    }
}

/// Relies on `toml::map::Map::new`: an empty table.
#[verifier::external_body]
fn new_table() -> (r: toml::Table)
    ensures
        table_entries(r) == empty_doc(),
{
    toml::Table::new()
}

/// Relies on `toml::map::Map::insert`: stores `entry` under `key`,
/// replacing what was there.
#[verifier::external_body]
fn table_insert(t: &mut toml::Table, key: &str, entry: TomlEntry)
    requires
        !(entry is Other),
    ensures
        table_entries(*final(t)) == table_entries(*old(t)).insert(key@, entry.node()),
{
    let value = match entry {
        TomlEntry::Text(s) => toml::Value::String(s),
        TomlEntry::Integer(i) => toml::Value::Integer(i),
        TomlEntry::Boolean(b) => toml::Value::Boolean(b),
        TomlEntry::Section(sub) => toml::Value::Table(sub),
        TomlEntry::Other => return ,
    };
    t.insert(key.to_string(), value);
}

/// Relies on `toml::to_string_pretty`: prints a table as a TOML document.
/// Only tables of texts, integers, booleans and tables of those are printed
/// here, and for them the entries decide the text.
#[verifier::external_body]
fn render_table(t: &toml::Table) -> (r: Result<String, toml::ser::Error>)
    requires
        printable(table_entries(*t)),
    ensures
        match r {
            Ok(s) => toml_rendering(table_entries(*t)) == Some(s@),
            Err(_) => toml_rendering(table_entries(*t)) is None,
        },
{
    toml::to_string_pretty(t)
}

/// Whether a value is a text, an integer or a boolean.
pub open spec fn is_scalar(n: TomlNode) -> bool {
    n is Text || n is Integer || n is Boolean
}

/// Whether every value of `m` is a text, an integer or a boolean.
pub open spec fn all_scalar(m: Map<Seq<char>, TomlNode>) -> bool {
    forall|k: Seq<char>| #[trigger] m.contains_key(k) ==> is_scalar(m[k])
}

/// Whether `doc` holds only texts, integers, booleans and tables of those.
pub open spec fn printable(doc: Map<Seq<char>, TomlNode>) -> bool {
    forall|k: Seq<char>|
        #[trigger] doc.contains_key(k) ==> is_scalar(doc[k]) || (doc[k] matches TomlNode::Table(m)
            && all_scalar(m))
}

/// What `doc` holds under `key`, if anything.
pub open spec fn entry(doc: Map<Seq<char>, TomlNode>, key: Seq<char>) -> Option<TomlNode> {
    if doc.contains_key(key) {
        Some(doc[key])
    } else {
        None
    }
}

/// Whether `name` is absent from `doc` or holds a table.
pub open spec fn is_section(doc: Map<Seq<char>, TomlNode>, name: Seq<char>) -> bool {
    match entry(doc, name) {
        None => true,
        Some(TomlNode::Table(_)) => true,
        Some(_) => false,
    }
}

/// The table under `name`; an absent section reads as an empty one.
pub open spec fn section(doc: Map<Seq<char>, TomlNode>, name: Seq<char>) -> Map<Seq<char>, TomlNode> {
    match entry(doc, name) {
        Some(TomlNode::Table(m)) => m,
        _ => empty_doc(),
    }
}

/// The text a value holds, if it is text.
pub open spec fn text_at(raw: Option<TomlNode>) -> Option<Seq<char>> {
    match raw {
        Some(TomlNode::Text(s)) => Some(s),
        _ => None,
    }
}

/// The profile a value names: non-empty text.
pub open spec fn profile_at(raw: Option<TomlNode>) -> Option<Seq<char>> {
    match raw {
        Some(TomlNode::Text(s)) => if s.len() > 0 {
            Some(s)
        } else {
            None
        },
        _ => None,
    }
}

/// The level a value names: text that is a level's name.
pub open spec fn level_at(raw: Option<TomlNode>) -> Option<LogLevel> {
    match raw {
        Some(TomlNode::Text(s)) => level_named(s),
        _ => None,
    }
}

/// The positive integer, at most `max`, that a value holds.
pub open spec fn positive_at(raw: Option<TomlNode>, max: u64) -> Option<u64> {
    match raw {
        Some(TomlNode::Integer(i)) => if 0 < i <= max {
            Some(i as u64)
        } else {
            None
        },
        _ => None,
    }
}

/// The truth value a value holds.
pub open spec fn bool_at(raw: Option<TomlNode>) -> Option<bool> {
    match raw {
        Some(TomlNode::Boolean(b)) => Some(b),
        _ => None,
    }
}

/// Whether a value is present and does not have the expected type.
pub open spec fn node_fails<T>(raw: Option<TomlNode>, converted: Option<T>) -> bool {
    raw is Some && converted is None
}

/// The layer that a parsed configuration file sets, or the first field (in
/// declaration order) whose value does not have the field's type. Keys that
/// are not fields of the configuration are ignored.
pub open spec fn file_layer_view(doc: Map<Seq<char>, TomlNode>) -> Result<LayerView, Seq<char>> {
    let profile = entry(doc, "profile"@);
    let logging = section(doc, "logging"@);
    let runtime = section(doc, "runtime"@);
    let paths = section(doc, "paths"@);
    let level = entry(logging, "level"@);
    let log_file = entry(logging, "file"@);
    let parallelism = entry(runtime, "parallelism"@);
    let timeout = entry(runtime, "timeout"@);
    let fail_fast = entry(runtime, "fail_fast"@);
    let data_dir = entry(paths, "data_dir"@);
    let state_dir = entry(paths, "state_dir"@);
    if node_fails(profile, profile_at(profile)) {
        Err("profile"@)
    } else if !is_section(doc, "logging"@) {
        Err("logging"@)
    } else if node_fails(level, level_at(level)) {
        Err("logging.level"@)
    } else if node_fails(log_file, text_at(log_file)) {
        Err("logging.file"@)
    } else if !is_section(doc, "runtime"@) {
        Err("runtime"@)
    } else if node_fails(parallelism, positive_at(parallelism, max_parallelism())) {
        Err("runtime.parallelism"@)
    } else if node_fails(timeout, positive_at(timeout, u64::MAX)) {
        Err("runtime.timeout"@)
    } else if node_fails(fail_fast, bool_at(fail_fast)) {
        Err("runtime.fail_fast"@)
    } else if !is_section(doc, "paths"@) {
        Err("paths"@)
    } else if node_fails(data_dir, text_at(data_dir)) {
        Err("paths.data_dir"@)
    } else if node_fails(state_dir, text_at(state_dir)) {
        Err("paths.state_dir"@)
    } else {
        Ok(
            LayerView {
                profile: profile_at(profile),
                level: level_at(level),
                log_file: text_at(log_file),
                parallelism: usize_of(positive_at(parallelism, max_parallelism())),
                timeout: positive_at(timeout, u64::MAX),
                fail_fast: bool_at(fail_fast),
                data_dir: text_at(data_dir),
                state_dir: text_at(state_dir),
            },
        )
    }
}

fn coercion_error(field: &str) -> (r: CoreError)
    ensures
        r matches CoreError::TypeCoercion(f) && f@ == field@,
{
    CoreError::TypeCoercion(String::from_str(field))
}

/// The table under `name`, an empty one where it is absent, or `None`
/// where the key holds something else.
fn read_section(doc: &toml::Table, name: &str) -> (r: Option<toml::Table>)
    ensures
        r is Some <==> is_section(table_entries(*doc), name@),
        r matches Some(t) ==> table_entries(t) == section(table_entries(*doc), name@),
{
    match table_get(doc, name) {
        None => Some(new_table()),
        Some(TomlEntry::Section(t)) => Some(t),
        Some(_) => None,
    }
}

fn read_text(t: &toml::Table, key: &str) -> (r: Result<Option<String>, ()>)
    ensures
        r is Err <==> node_fails(entry(table_entries(*t), key@), text_at(entry(table_entries(*t), key@))),
        r matches Ok(v) ==> opt_str(v) == text_at(entry(table_entries(*t), key@)),
{
    match table_get(t, key) {
        None => Ok(None),
        Some(TomlEntry::Text(s)) => Ok(Some(s)),
        Some(_) => Err(()),
    }
}

fn read_profile(t: &toml::Table, key: &str) -> (r: Result<Option<String>, ()>)
    ensures
        r is Err <==> node_fails(entry(table_entries(*t), key@), profile_at(entry(table_entries(*t), key@))),
        r matches Ok(v) ==> opt_str(v) == profile_at(entry(table_entries(*t), key@)),
{
    match table_get(t, key) {
        None => Ok(None),
        Some(TomlEntry::Text(s)) => {
            if s.unicode_len() > 0 {
                Ok(Some(s))
            } else {
                Err(())
            }
        },
        Some(_) => Err(()),
    }
}

fn read_level(t: &toml::Table, key: &str) -> (r: Result<Option<LogLevel>, ()>)
    ensures
        r is Err <==> node_fails(entry(table_entries(*t), key@), level_at(entry(table_entries(*t), key@))),
        r matches Ok(v) ==> v == level_at(entry(table_entries(*t), key@)),
{
    match table_get(t, key) {
        None => Ok(None),
        Some(TomlEntry::Text(s)) => match LogLevel::from_name(s.as_str()) {
            Some(l) => Ok(Some(l)),
            None => Err(()),
        },
        Some(_) => Err(()),
    }
}

fn read_positive(t: &toml::Table, key: &str, max: u64) -> (r: Result<Option<u64>, ()>)
    ensures
        r is Err <==> node_fails(entry(table_entries(*t), key@), positive_at(entry(table_entries(*t), key@), max)),
        r matches Ok(v) ==> v == positive_at(entry(table_entries(*t), key@), max),
{
    match table_get(t, key) {
        None => Ok(None),
        Some(TomlEntry::Integer(i)) => {
            if 0 < i && (i as u64) <= max {
                Ok(Some(i as u64))
            } else {
                Err(())
            }
        },
        Some(_) => Err(()),
    }
}

fn read_bool(t: &toml::Table, key: &str) -> (r: Result<Option<bool>, ()>)
    ensures
        r is Err <==> node_fails(entry(table_entries(*t), key@), bool_at(entry(table_entries(*t), key@))),
        r matches Ok(v) ==> v == bool_at(entry(table_entries(*t), key@)),
{
    match table_get(t, key) {
        None => Ok(None),
        Some(TomlEntry::Boolean(b)) => Ok(Some(b)),
        Some(_) => Err(()),
    }
}

/// The layer that a parsed configuration file sets.
pub fn file_layer(doc: &toml::Table) -> (r: Result<ConfigLayer, CoreError>)
    ensures
        layer_result_matches(r, file_layer_view(table_entries(*doc))),
{
    let profile = match read_profile(doc, "profile") {
        Ok(v) => v,
        Err(_) => {
            return Err(coercion_error("profile"));
        },
    };
    let logging = match read_section(doc, "logging") {
        Some(t) => t,
        None => {
            return Err(coercion_error("logging"));
        },
    };
    let level = match read_level(&logging, "level") {
        Ok(v) => v,
        Err(_) => {
            return Err(coercion_error("logging.level"));
        },
    };
    let log_file = match read_text(&logging, "file") {
        Ok(v) => v,
        Err(_) => {
            return Err(coercion_error("logging.file"));
        },
    };
    let runtime = match read_section(doc, "runtime") {
        Some(t) => t,
        None => {
            return Err(coercion_error("runtime"));
        },
    };
    let parallelism = match read_positive(&runtime, "parallelism", usize::MAX as u64) {
        Ok(Some(v)) => Some(v as usize),
        Ok(None) => None,
        Err(_) => {
            return Err(coercion_error("runtime.parallelism"));
        },
    };
    let timeout = match read_positive(&runtime, "timeout", u64::MAX) {
        Ok(v) => v,
        Err(_) => {
            return Err(coercion_error("runtime.timeout"));
        },
    };
    let fail_fast = match read_bool(&runtime, "fail_fast") {
        Ok(v) => v,
        Err(_) => {
            return Err(coercion_error("runtime.fail_fast"));
        },
    };
    let paths = match read_section(doc, "paths") {
        Some(t) => t,
        None => {
            return Err(coercion_error("paths"));
        },
    };
    let data_dir = match read_text(&paths, "data_dir") {
        Ok(v) => v,
        Err(_) => {
            return Err(coercion_error("paths.data_dir"));
        },
    };
    let state_dir = match read_text(&paths, "state_dir") {
        Ok(v) => v,
        Err(_) => {
            return Err(coercion_error("paths.state_dir"));
        },
    };
    Ok(
        ConfigLayer {
            profile,
            level,
            log_file,
            parallelism,
            timeout,
            fail_fast,
            data_dir,
            state_dir,
        },
    )
}


/// `m` with `k` set to the text `v`, where there is one.
pub open spec fn put_text(m: Map<Seq<char>, TomlNode>, k: Seq<char>, v: Option<Seq<char>>) -> Map<
    Seq<char>,
    TomlNode,
> {
    match v {
        Some(s) => m.insert(k, TomlNode::Text(s)),
        None => m,
    }
}

/// `m` with `k` set to the integer `v`, where there is one.
pub open spec fn put_integer(m: Map<Seq<char>, TomlNode>, k: Seq<char>, v: Option<int>) -> Map<
    Seq<char>,
    TomlNode,
> {
    match v {
        Some(i) => m.insert(k, TomlNode::Integer(i)),
        None => m,
    }
}

/// The number a parallelism holds.
pub open spec fn int_of_usize(o: Option<usize>) -> Option<int> {
    match o {
        Some(v) => Some(v as int),
        None => None,
    }
}

/// The number a timeout holds.
pub open spec fn int_of_u64(o: Option<u64>) -> Option<int> {
    match o {
        Some(v) => Some(v as int),
        None => None,
    }
}

/// The `[logging]` table of a configuration.
pub open spec fn logging_tree(c: ConfigView) -> Map<Seq<char>, TomlNode> {
    put_text(empty_doc().insert("level"@, TomlNode::Text(c.level.name())), "file"@, c.log_file)
}

/// The `[runtime]` table of a configuration.
pub open spec fn runtime_tree(c: ConfigView) -> Map<Seq<char>, TomlNode> {
    put_integer(
        put_integer(empty_doc(), "parallelism"@, int_of_usize(c.parallelism)),
        "timeout"@,
        int_of_u64(c.timeout),
    ).insert("fail_fast"@, TomlNode::Boolean(c.fail_fast))
}

/// The `[paths]` table of a configuration.
pub open spec fn paths_tree(c: ConfigView) -> Map<Seq<char>, TomlNode> {
    put_text(put_text(empty_doc(), "data_dir"@, c.data_dir), "state_dir"@, c.state_dir)
}

/// The TOML table that a configuration is written as: one key per field
/// that holds a value, each section a table of its own.
pub open spec fn config_tree(c: ConfigView) -> Map<Seq<char>, TomlNode> {
    empty_doc().insert("profile"@, TomlNode::Text(c.profile)).insert(
        "logging"@,
        TomlNode::Table(logging_tree(c)),
    ).insert("runtime"@, TomlNode::Table(runtime_tree(c))).insert(
        "paths"@,
        TomlNode::Table(paths_tree(c)),
    )
}

/// Whether the integers of `c` fit TOML's signed 64-bit integers.
pub open spec fn fits_toml(c: ConfigView) -> bool {
    &&& (c.parallelism matches Some(p) ==> p <= i64::MAX)
    &&& (c.timeout matches Some(t) ==> t <= i64::MAX)
}

fn put_optional_text(t: &mut toml::Table, key: &str, v: &Option<String>)
    ensures
        table_entries(*final(t)) == put_text(table_entries(*old(t)), key@, opt_str(*v)),
{
    if let Some(s) = v {
        table_insert(t, key, TomlEntry::Text(s.clone()));
    }
}

fn serialization_error() -> (r: CoreError)
    ensures
        r is Serialization,
{
    CoreError::Serialization(String::from_str("integer does not fit a TOML integer"))
}

/// The TOML table that a configuration is written as.
pub fn config_table(cfg: &AppConfig) -> (r: Result<toml::Table, CoreError>)
    ensures
        match r {
            Ok(t) => fits_toml(cfg@) && table_entries(t) == config_tree(cfg@),
            Err(e) => !fits_toml(cfg@) && e is Serialization,
        },
{
    let mut logging = new_table();
    table_insert(&mut logging, "level", TomlEntry::Text(String::from_str(cfg.logging.level.as_str())));
    put_optional_text(&mut logging, "file", &cfg.logging.file);

    let mut runtime = new_table();
    if let Some(p) = cfg.runtime.parallelism {
        if p as u64 > i64::MAX as u64 {
            return Err(serialization_error());
        }
        table_insert(&mut runtime, "parallelism", TomlEntry::Integer(p as i64));
    }
    if let Some(v) = cfg.runtime.timeout {
        if v > i64::MAX as u64 {
            return Err(serialization_error());
        }
        table_insert(&mut runtime, "timeout", TomlEntry::Integer(v as i64));
    }
    table_insert(&mut runtime, "fail_fast", TomlEntry::Boolean(cfg.runtime.fail_fast));

    let mut paths = new_table();
    put_optional_text(&mut paths, "data_dir", &cfg.paths.data_dir);
    put_optional_text(&mut paths, "state_dir", &cfg.paths.state_dir);

    let mut doc = new_table();
    table_insert(&mut doc, "profile", TomlEntry::Text(cfg.profile.clone()));
    table_insert(&mut doc, "logging", TomlEntry::Section(logging));
    table_insert(&mut doc, "runtime", TomlEntry::Section(runtime));
    table_insert(&mut doc, "paths", TomlEntry::Section(paths));
    Ok(doc)
}

/// The TOML text that a configuration is written as.
pub fn render_config(cfg: &AppConfig) -> (r: Result<String, CoreError>)
    ensures
        match r {
            Ok(s) => fits_toml(cfg@) && toml_rendering(config_tree(cfg@)) == Some(s@),
            Err(e) => e is Serialization && (!fits_toml(cfg@) || toml_rendering(
                config_tree(cfg@),
            ) is None),
        },
{
    let doc = config_table(cfg)?;
    proof {
        lemma_config_tree_printable(cfg@);
    }
    match render_table(&doc) {
        Ok(s) => Ok(s),
        Err(e) => Err(CoreError::Serialization(e.to_string())),
    }
}


proof fn lemma_names_distinct()
    ensures
        "error"@ != "warn"@,
        "error"@ != "info"@,
        "error"@ != "debug"@,
        "error"@ != "trace"@,
        "warn"@ != "info"@,
        "warn"@ != "debug"@,
        "warn"@ != "trace"@,
        "info"@ != "debug"@,
        "info"@ != "trace"@,
        "debug"@ != "trace"@,
        "profile"@ != "logging"@,
        "profile"@ != "runtime"@,
        "profile"@ != "paths"@,
        "logging"@ != "runtime"@,
        "logging"@ != "paths"@,
        "runtime"@ != "paths"@,
        "level"@ != "file"@,
        "parallelism"@ != "timeout"@,
        "parallelism"@ != "fail_fast"@,
        "timeout"@ != "fail_fast"@,
        "data_dir"@ != "state_dir"@,
{
    reveal_strlit("error");
    reveal_strlit("warn");
    reveal_strlit("info");
    reveal_strlit("debug");
    reveal_strlit("trace");
    reveal_strlit("profile");
    reveal_strlit("logging");
    reveal_strlit("runtime");
    reveal_strlit("paths");
    reveal_strlit("level");
    reveal_strlit("file");
    reveal_strlit("parallelism");
    reveal_strlit("timeout");
    reveal_strlit("fail_fast");
    reveal_strlit("data_dir");
    reveal_strlit("state_dir");
    assert("error"@[0] != "warn"@[0]);
    assert("error"@[0] != "info"@[0]);
    assert("error"@[0] != "debug"@[0]);
    assert("error"@[0] != "trace"@[0]);
    assert("warn"@[0] != "info"@[0]);
    assert("warn"@[0] != "debug"@[0]);
    assert("warn"@[0] != "trace"@[0]);
    assert("info"@[0] != "debug"@[0]);
    assert("info"@[0] != "trace"@[0]);
    assert("debug"@[0] != "trace"@[0]);
    assert("profile"@[0] != "logging"@[0]);
    assert("profile"@[0] != "runtime"@[0]);
    assert("profile"@[1] != "paths"@[1]);
    assert("logging"@[0] != "runtime"@[0]);
    assert("logging"@[0] != "paths"@[0]);
    assert("runtime"@[0] != "paths"@[0]);
    assert("level"@[0] != "file"@[0]);
    assert("parallelism"@[0] != "timeout"@[0]);
    assert("parallelism"@[0] != "fail_fast"@[0]);
    assert("timeout"@[0] != "fail_fast"@[0]);
    assert("data_dir"@[0] != "state_dir"@[0]);
}

/// The table a configuration is written as holds only what printing
/// determines: texts, integers, booleans and tables of those.
proof fn lemma_config_tree_printable(c: ConfigView)
    ensures
        printable(config_tree(c)),
{
    lemma_names_distinct();
    let l = logging_tree(c);
    let r = runtime_tree(c);
    let p = paths_tree(c);
    assert(all_scalar(l));
    assert(all_scalar(r));
    assert(all_scalar(p));
    let doc = config_tree(c);
    assert forall|k: Seq<char>| #[trigger] doc.contains_key(k) implies is_scalar(doc[k]) || (
    doc[k] matches TomlNode::Table(m) && all_scalar(m)) by {
        if k == "paths"@ {
            assert(doc[k] == TomlNode::Table(p));
        } else if k == "runtime"@ {
            assert(doc[k] == TomlNode::Table(r));
        } else if k == "logging"@ {
            assert(doc[k] == TomlNode::Table(l));
        } else {
            assert(k == "profile"@);
        }
    }
}

/// Each level is read back from the name it is written as.
pub proof fn lemma_level_name_round_trip(l: LogLevel)
    ensures
        level_named(l.name()) == Some(l),
{
    lemma_names_distinct();
}

/// Reading back the table that a configuration is written as sets every
/// field that holds a value; over the defaults it gives the configuration
/// back, provided its timeout is set (an unset timeout is not written, and
/// reads back as the default one).
pub proof fn lemma_table_round_trip(c: ConfigView)
    requires
        valid(c),
        fits_toml(c),
        c.timeout is Some,
    ensures
        file_layer_view(config_tree(c)) matches Ok(l) && overlay(l, default_view()) == c,
{
    lemma_names_distinct();
    lemma_level_name_round_trip(c.level);
    let doc = config_tree(c);
    assert(entry(doc, "profile"@) == Some(TomlNode::Text(c.profile)));
    assert(section(doc, "logging"@) == logging_tree(c));
    assert(section(doc, "runtime"@) == runtime_tree(c));
    assert(section(doc, "paths"@) == paths_tree(c));
    assert(entry(logging_tree(c), "level"@) == Some(TomlNode::Text(c.level.name())));
    assert(text_at(entry(logging_tree(c), "file"@)) == c.log_file);
    assert(entry(runtime_tree(c), "fail_fast"@) == Some(TomlNode::Boolean(c.fail_fast)));
    assert(positive_at(entry(runtime_tree(c), "timeout"@), u64::MAX) == c.timeout);
    assert(usize_of(positive_at(entry(runtime_tree(c), "parallelism"@), max_parallelism()))
        == c.parallelism);
    assert(text_at(entry(paths_tree(c), "data_dir"@)) == c.data_dir);
    assert(text_at(entry(paths_tree(c), "state_dir"@)) == c.state_dir);
}

} // verus!
