//! The generated JSON schema: the document that schema derivation yields
//! for the configuration model, with the application's metadata and the
//! editor property added.
//!
//! Parsing and printing JSON is `serde_json`'s work; this module decides
//! what goes into the document.

use vstd::prelude::*;

use crate::error::{CoreError, Failure};
use crate::generate::{schema_description, schema_id, schema_title};
use crate::text::push_str;

verus! {

#[verifier::external_type_specification]
#[verifier::external_body]
#[verifier::reject_recursive_types(K)]
#[verifier::reject_recursive_types(V)]
pub struct ExJsonMap<K, V>(serde_json::Map<K, V>);

#[verifier::external_type_specification]
#[verifier::external_body]
pub struct ExJsonValue(serde_json::Value);

#[verifier::external_type_specification]
#[verifier::external_body]
pub struct ExJsonError(serde_json::Error);

/// What a JSON value is, as far as schema generation reads it.
pub enum JsonNode {
    Text(Seq<char>),
    Object(Map<Seq<char>, JsonNode>),
    /// A number, a boolean, null or an array, as its compact JSON text.
    Other(Seq<char>),
}

/// What a JSON object holds: its keys and the value under each; a value
/// that is neither text nor an object is kept as its compact JSON text.
pub uninterp spec fn object_entries(m: serde_json::Map<String, serde_json::Value>) -> Map<
    Seq<char>,
    JsonNode,
>;

/// The value that `serde_json` parses `text` into; `None` where it rejects
/// the text.
pub uninterp spec fn json_document(text: Seq<char>) -> Option<JsonNode>;

/// The text that `serde_json` pretty-prints an object holding `doc` as;
/// `None` where it cannot.
pub uninterp spec fn json_rendering(doc: Map<Seq<char>, JsonNode>) -> Option<Seq<char>>;

/// A JSON value read out of, or to be put into, a document.
pub enum JsonEntry {
    Text(String),
    Object(serde_json::Map<String, serde_json::Value>),
    Other(serde_json::Value),
}

impl JsonEntry {
    /// Whether `n` is what this entry holds. Of a value that is neither text
    /// nor an object, only its kind is known.
    pub open spec fn holds(&self, n: JsonNode) -> bool {
        match self {
            JsonEntry::Text(s) => n == JsonNode::Text(s@),
            JsonEntry::Object(m) => n == JsonNode::Object(object_entries(*m)),
            JsonEntry::Other(_) => n is Other,
        }
    }

    /// What a text or an object entry holds.
    pub open spec fn node(&self) -> JsonNode
        recommends
            !(self is Other),
    {
        match self {
            JsonEntry::Text(s) => JsonNode::Text(s@),
            JsonEntry::Object(m) => JsonNode::Object(object_entries(*m)),
            JsonEntry::Other(_) => JsonNode::Other(Seq::empty()),
        }
    }
}

/// Relies on `serde_json::from_str`: parses a whole document, told apart by
/// kind.
#[verifier::external_body]
fn parse_json(text: &str) -> (r: Result<JsonEntry, serde_json::Error>)
    ensures
        match r {
            Ok(e) => json_document(text@) matches Some(n) && e.holds(n),
            Err(_) => json_document(text@) is None,
        },
{
    match serde_json::from_str::<serde_json::Value>(text)? {
        serde_json::Value::String(s) => Ok(JsonEntry::Text(s)),
        serde_json::Value::Object(m) => Ok(JsonEntry::Object(m)),
        v => Ok(JsonEntry::Other(v)),
    }
}

/// Relies on `serde_json::Map::get`: the value stored under `key`, told
/// apart by kind.
#[verifier::external_body]
fn object_get(m: &serde_json::Map<String, serde_json::Value>, key: &str) -> (r: Option<JsonEntry>)
    ensures
        match r {
            Some(e) => object_entries(*m).contains_key(key@) && e.holds(object_entries(*m)[key@]),
            None => !object_entries(*m).contains_key(key@),
        },
{
    match m.get(key) {
        None => None,
        Some(serde_json::Value::String(s)) => Some(JsonEntry::Text(s.clone())),
        Some(serde_json::Value::Object(o)) => Some(JsonEntry::Object(o.clone())),
        Some(v) => Some(JsonEntry::Other(v.clone())),
    }
}

/// Relies on `serde_json::Map::new`: an empty object.
#[verifier::external_body]
fn new_object() -> (r: serde_json::Map<String, serde_json::Value>)
    ensures
        object_entries(r) == empty_object(),
{
    serde_json::Map::new()
}

/// Relies on `serde_json::Map::insert`: stores `entry` under `key`,
/// replacing what was there.
#[verifier::external_body]
fn object_insert(m: &mut serde_json::Map<String, serde_json::Value>, key: &str, entry: JsonEntry)
    requires
        !(entry is Other),
    ensures
        object_entries(*final(m)) == object_entries(*old(m)).insert(key@, entry.node()),
{
    let value = match entry {
        JsonEntry::Text(s) => serde_json::Value::String(s),
        JsonEntry::Object(o) => serde_json::Value::Object(o),
        JsonEntry::Other(_) => return ,
    };
    m.insert(key.to_string(), value);
}

/// Relies on `serde_json::to_string_pretty`: prints an object. Its keys are
/// printed in order (no `preserve_order`), texts and nested objects are
/// kept exactly in the entries, and any other value by its JSON text, so the
/// entries decide what is printed.
#[verifier::external_body]
fn render_object(m: &serde_json::Map<String, serde_json::Value>) -> (r: Result<String, serde_json::Error>)
    ensures
        match r {
            Ok(s) => json_rendering(object_entries(*m)) == Some(s@),
            Err(_) => json_rendering(object_entries(*m)) is None,
        },
{
    serde_json::to_string_pretty(m)
}

/// An object with no keys.
pub open spec fn empty_object() -> Map<Seq<char>, JsonNode> {
    Map::empty()
}

/// The property that lets a config file name its schema.
pub open spec fn schema_property() -> Map<Seq<char>, JsonNode> {
    empty_object().insert("type"@, JsonNode::Text("string"@)).insert(
        "description"@,
        JsonNode::Text("JSON Schema reference for editor support"@),
    )
}

/// The schema object with the application's metadata set and, where it has
/// an object of properties, the `$schema` property added to them.
pub open spec fn decorated(base: Map<Seq<char>, JsonNode>, name: Seq<char>, repo_url: Seq<char>) -> Map<
    Seq<char>,
    JsonNode,
> {
    let m = base.insert("$id"@, JsonNode::Text(repo_url + "/schemas/config.schema.json"@)).insert(
        "title"@,
        JsonNode::Text(name + " configuration"@),
    ).insert("description"@, JsonNode::Text("Configuration schema for "@ + name));
    if base.contains_key("properties"@) && base["properties"@] is Object {
        m.insert(
            "properties"@,
            JsonNode::Object(
                base["properties"@]->Object_0.insert("$schema"@, JsonNode::Object(schema_property())),
            ),
        )
    } else {
        m
    }
}

/// The schema text generated from the derived schema `base`.
pub open spec fn schema_view(base: Seq<char>, name: Seq<char>, repo_url: Seq<char>) -> Result<
    Seq<char>,
    Failure,
> {
    match json_document(base) {
        Some(JsonNode::Object(m)) => match json_rendering(decorated(m, name, repo_url)) {
            Some(t) => Ok(t),
            None => Err(Failure::Serialization),
        },
        _ => Err(Failure::Parse),
    }
}

fn text_entry(s: String) -> (r: JsonEntry)
    ensures
        r.node() == JsonNode::Text(s@),
{
    JsonEntry::Text(s)
}

/// The schema of the configuration for `project_name`, from the schema
/// derived for the configuration model (`base_schema`, a JSON object): its
/// identifier, title and description are set from the repository's URL and
/// the name, and a `$schema` property is added to its properties so that
/// config files can point editors at it.
pub fn generate_schema(base_schema: &str, project_name: &str, repo_url: &str) -> (r: Result<
    String,
    CoreError,
>)
    ensures
        match schema_view(base_schema@, project_name@, repo_url@) {
            Ok(t) => r matches Ok(s) && s@ == t,
            Err(Failure::Parse) => r matches Err(e) && e is Parse,
            Err(_) => r matches Err(e) && e is Serialization,
        },
{
    let mut doc = match parse_json(base_schema) {
        Ok(JsonEntry::Object(m)) => m,
        Ok(_) => {
            return Err(CoreError::Parse(String::from_str("the schema is not a JSON object")));
        },
        Err(e) => {
            return Err(CoreError::Parse(e.to_string()));
        },
    };
    let properties = object_get(&doc, "properties");
    object_insert(&mut doc, "$id", text_entry(schema_id(repo_url)));
    object_insert(&mut doc, "title", text_entry(schema_title(project_name)));
    object_insert(&mut doc, "description", text_entry(schema_description(project_name)));
    if let Some(JsonEntry::Object(mut props)) = properties {
        let mut prop = new_object();
        object_insert(&mut prop, "type", text_entry(String::from_str("string")));
        object_insert(
            &mut prop,
            "description",
            text_entry(String::from_str("JSON Schema reference for editor support")),
        );
        object_insert(&mut props, "$schema", JsonEntry::Object(prop));
        object_insert(&mut doc, "properties", JsonEntry::Object(props));
    }
    match render_object(&doc) {
        Ok(s) => Ok(s),
        Err(e) => Err(CoreError::Serialization(e.to_string())),
    }
}

/// The generated schema carries the title naming the application and the
/// identifier below the repository, and, where the derived schema lists
/// properties, a `$schema` property among them.
pub proof fn lemma_schema_metadata(base: Map<Seq<char>, JsonNode>, name: Seq<char>, repo_url: Seq<char>)
    ensures
        decorated(base, name, repo_url)["title"@] == JsonNode::Text(name + " configuration"@),
        (name + " configuration"@).subrange(0, name.len() as int) == name,
        decorated(base, name, repo_url)["$id"@] == JsonNode::Text(repo_url + "/schemas/config.schema.json"@),
        base.contains_key("properties"@) && base["properties"@] is Object ==> (decorated(
            base,
            name,
            repo_url,
        )["properties"@] matches JsonNode::Object(p) && p.contains_key("$schema"@)),
{
    reveal_strlit("$id");
    reveal_strlit("title");
    reveal_strlit("description");
    reveal_strlit("properties");
    assert("title"@[0] != "description"@[0]);
    assert("title"@[0] != "properties"@[0]);
    assert("$id"@[0] != "title"@[0]);
    assert("$id"@[0] != "description"@[0]);
    assert("$id"@[0] != "properties"@[0]);
    assert((name + " configuration"@).subrange(0, name.len() as int) =~= name);
}

} // verus!
