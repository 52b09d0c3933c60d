//! Loading the pool and client identifiers from the JSON config file.
//!
//! The file is a JSON object with the two required string members
//! `user_pool_id` and `client_id`. Reading the file is the caller's job; the
//! loader here takes the file's text, parses it with `serde_json`, and
//! either yields a fully populated [`Config`] or says exactly what was
//! wrong. No partial or defaulted config is ever produced.

use vstd::prelude::*;
use vstd::string::StringExecFns;

verus! {

/// Whether `serde_json` accepts the text as a JSON document.
pub uninterp spec fn json_ok(s: Seq<char>) -> bool;

/// The string member `key` of the JSON document `s`: `Some` exactly when
/// the document is an object whose member `key` is a string.
pub uninterp spec fn json_string_field(s: Seq<char>, key: Seq<char>) -> Option<Seq<char>>;

/// The string member `key` of the parsed value `v`: `Some` exactly when
/// `v` is an object whose member `key` is a string.
pub uninterp spec fn value_string_member(v: serde_json::Value, key: Seq<char>) -> Option<
    Seq<char>,
>;

/// The string content of the parsed value `v`: `Some` exactly when `v` is a
/// JSON string.
pub uninterp spec fn value_as_string(v: serde_json::Value) -> Option<Seq<char>>;

#[verifier::external_type_specification]
#[verifier::external_body]
pub struct ExJsonValue(serde_json::Value);

#[verifier::external_type_specification]
#[verifier::external_body]
pub struct ExJsonError(serde_json::Error);

/// Relies on `serde_json::from_str::<Value>`: parses a JSON document, and
/// succeeds exactly on the texts `serde_json` accepts. What the parsed
/// value's string members hold is what the document's text holds.
#[verifier::external_body]
fn json_from_str(s: &str) -> (r: Result<serde_json::Value, serde_json::Error>)
    ensures
        r is Ok <==> json_ok(s@),
        r matches Ok(v) ==> forall|k: Seq<char>|
            #[trigger] value_string_member(v, k) == json_string_field(s@, k),
{
    serde_json::from_str::<serde_json::Value>(s)
}

/// Relies on `serde_json::Value::get`: member lookup by key, `None` when
/// the value is not an object or has no such member.
#[verifier::external_body]
fn value_get<'a>(v: &'a serde_json::Value, key: &str) -> (r: Option<&'a serde_json::Value>)
    ensures
        r matches Some(m) ==> value_as_string(*m) == value_string_member(*v, key@),
        r is None ==> value_string_member(*v, key@) is None,
{
    v.get(key)
}

/// Relies on `serde_json::Value::as_str`: the string content of a JSON
/// string value, `None` for every other kind of value.
#[verifier::external_body]
fn value_as_str<'a>(v: &'a serde_json::Value) -> (r: Option<&'a str>)
    ensures
        r matches Some(s) ==> value_as_string(*v) == Option::Some(s@),
        r is None ==> value_as_string(*v) is None,
{
    v.as_str()
}

/// The pool and client identifiers, read once from the config file and
/// immutable afterward.
#[derive(Debug)]
pub struct Config {
    pub user_pool_id: String,
    pub client_id: String,
}

impl Config {
    /// A config is well-formed when both identifiers are present and
    /// non-empty; only then may the authentication call be built.
    pub open spec fn wf(self) -> bool {
        self.user_pool_id@.len() > 0 && self.client_id@.len() > 0
    }
}

/// Everything that can be wrong with the config file's text.
#[derive(Clone, Copy, Debug, PartialEq, Eq)]
pub enum ConfigError {
    /// The text is not a JSON document.
    InvalidJson,
    /// No string member `user_pool_id`.
    MissingUserPoolId,
    /// No string member `client_id`.
    MissingClientId,
    /// The member `user_pool_id` is the empty string.
    EmptyUserPoolId,
    /// The member `client_id` is the empty string.
    EmptyClientId,
}

/// What loading a config text yields: the two identifiers, or the first
/// error in the loader's fixed order of checks.
pub open spec fn spec_load(doc: Seq<char>) -> Result<(Seq<char>, Seq<char>), ConfigError> {
    if !json_ok(doc) {
        Err(ConfigError::InvalidJson)
    } else {
        match json_string_field(doc, "user_pool_id"@) {
            Option::None => Err(ConfigError::MissingUserPoolId),
            Option::Some(pool) => match json_string_field(doc, "client_id"@) {
                Option::None => Err(ConfigError::MissingClientId),
                Option::Some(client) => if pool.len() == 0 {
                    Err(ConfigError::EmptyUserPoolId)
                } else if client.len() == 0 {
                    Err(ConfigError::EmptyClientId)
                } else {
                    Ok((pool, client))
                },
            },
        }
    }
}

/// Loads the config from the file's text: exactly [`spec_load`] of the
/// text. A well-formed document yields both identifiers verbatim; invalid
/// JSON, a missing or non-string member, and an empty identifier each yield
/// their own error, and never a defaulted config.
pub fn load_config(text: &str) -> (r: Result<Config, ConfigError>)
    ensures
        r matches Ok(c) ==> spec_load(text@) == Ok::<_, ConfigError>(
            (c.user_pool_id@, c.client_id@),
        ) && c.wf(),
        r matches Err(e) ==> spec_load(text@) == Err::<(Seq<char>, Seq<char>), _>(e),
{
    let parsed = match json_from_str(text) {
        Ok(v) => v,
        Err(_) => {
            return Err(ConfigError::InvalidJson);
        },
    };
    let user_pool_id = match value_get(&parsed, "user_pool_id") {
        Some(member) => match value_as_str(member) {
            Some(s) => s.to_owned(),
            None => {
                return Err(ConfigError::MissingUserPoolId);
            },
        },
        None => {
            return Err(ConfigError::MissingUserPoolId);
        },
    };
    let client_id = match value_get(&parsed, "client_id") {
        Some(member) => match value_as_str(member) {
            Some(s) => s.to_owned(),
            None => {
                return Err(ConfigError::MissingClientId);
            },
        },
        None => {
            return Err(ConfigError::MissingClientId);
        },
    };
    if user_pool_id.as_str().is_empty() {
        return Err(ConfigError::EmptyUserPoolId);
    }
    if client_id.as_str().is_empty() {
        return Err(ConfigError::EmptyClientId);
    }
    Ok(Config { user_pool_id, client_id })
}

/// The config file's location: the home prefix joined with the fixed
/// subpath.
pub fn config_path(home: &str) -> (r: String)
    ensures
        r@ == home@ + "\\.aws\\cognito_pool.json"@,
{
    let mut path: String = home.to_owned();
    path.append("\\.aws\\cognito_pool.json");
    path
}

} // verus!
