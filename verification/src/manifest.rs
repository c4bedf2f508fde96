//! Reading the dependency manifest: the names declared under its
//! `dependencies` and `devDependencies` sections.

use vstd::prelude::*;

verus! {

/// What the JSON parser extracts from a manifest: `None` when the content
/// cannot be parsed as JSON, otherwise the key lists of the `dependencies`
/// and `devDependencies` objects (an absent or non-object section giving
/// an empty list).
pub uninterp spec fn manifest_sections(content: Seq<char>) -> Option<
    (Seq<Seq<char>>, Seq<Seq<char>>),
>;

/// Relies on serde_json::from_str and serde_json::Value::{get, as_object}:
/// parsing depends on the content alone, and the keys of a JSON object
/// come out in the parser's sorted key order, so the result is a function
/// of the content. Returns `None` exactly when the content cannot be
/// parsed as JSON.
#[verifier::external_body]
fn parse_manifest_sections(content: &str) -> (r: Option<(Vec<String>, Vec<String>)>)
    ensures
        match (r, manifest_sections(content@)) {
            (Some(v), Some(s)) => v.0.deep_view() == s.0 && v.1.deep_view() == s.1,
            (None, None) => true,
            _ => false,
        },
{
    let doc: serde_json::Value = match serde_json::from_str(content) {
        Ok(v) => v,
        Err(_) => return None,
    };
    let deps: Vec<String> = match doc.get("dependencies").and_then(serde_json::Value::as_object) {
        Some(m) => m.keys().cloned().collect(),
        None => Vec::new(),
    };
    let dev: Vec<String> = match doc.get("devDependencies").and_then(serde_json::Value::as_object) {
        Some(m) => m.keys().cloned().collect(),
        None => Vec::new(),
    };
    Some((deps, dev))
}

#[derive(Debug, Clone, Copy, PartialEq, Eq, Structural)]
pub enum ManifestError {
    InvalidJson,
}

/// The names declared under the manifest's `dependencies` section, or an
/// error exactly when the content cannot be parsed as JSON.
pub fn manifest_dependencies(content: &str) -> (r: Result<Vec<String>, ManifestError>)
    ensures
        match (r, manifest_sections(content@)) {
            (Ok(v), Some(s)) => v.deep_view() == s.0,
            (Err(e), None) => e == ManifestError::InvalidJson,
            _ => false,
        },
{
    match parse_manifest_sections(content) {
        Some(sections) => Ok(sections.0),
        None => Err(ManifestError::InvalidJson),
    }
}

/// The names under a manifest's `devDependencies` section; nothing for an
/// absent or unparseable manifest.
pub open spec fn manifest_dev_names(m: Option<Seq<char>>) -> Seq<Seq<char>> {
    match m {
        None => Seq::empty(),
        Some(c) => match manifest_sections(c) {
            None => Seq::empty(),
            Some(s) => s.1,
        },
    }
}

pub fn manifest_dev_dependencies(content: Option<&String>) -> (r: Vec<String>)
    ensures
        r.deep_view() == manifest_dev_names(
            match content {
                Some(c) => Some(c@),
                None => None,
            },
        ),
{
    match content {
        None => Vec::new(),
        Some(c) => match parse_manifest_sections(c.as_str()) {
            None => Vec::new(),
            Some(sections) => sections.1,
        },
    }
}

} // verus!
