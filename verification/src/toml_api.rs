use vstd::prelude::*;

verus! {

use crate::manifest::ManifestValue;

/// Declares `toml::Value` so that a parsed response document can be carried,
/// opaquely, from the parsing call to the pretty-printing call.
#[verifier::external_type_specification]
#[verifier::external_body]
pub struct ExTomlValue(toml::Value);

/// The tree that parsing a manifest text yields, `None` when the text is not
/// valid TOML. Parsing is a function of the text alone, so the result can be
/// named; nothing more is assumed of it.
pub uninterp spec fn manifest_tree_of(s: Seq<char>) -> Option<ManifestValue>;

/// Relies on `toml::Table`'s `FromStr`: parses a TOML document into a table,
/// deterministically, failing exactly on text that is not valid TOML. The
/// tree is converted entry for entry into the library's own `ManifestValue`.
#[verifier::external_body]
pub(crate) fn parse_manifest_text(text: &str) -> (r: Option<ManifestValue>)
    ensures
        r == manifest_tree_of(text@),
{
    match text.parse::<toml::Table>() {
        Ok(t) => Some(ManifestValue::Table(
            t.into_iter().map(|(k, w)| (k, manifest_value_of(w))).collect(),
        )),
        Err(_) => None,
    }
}

/// Converts a `toml::Value` into the library's `ManifestValue`, variant by
/// variant: strings and tables keep their content (tables in the order the
/// parser's map iterates them); every other shape becomes `Other`.
#[verifier::external_body]
fn manifest_value_of(v: toml::Value) -> ManifestValue {
    match v {
        toml::Value::String(s) => ManifestValue::Str(s),
        toml::Value::Table(t) => ManifestValue::Table(
            t.into_iter().map(|(k, w)| (k, manifest_value_of(w))).collect(),
        ),
        _ => ManifestValue::Other,
    }
}

/// The document that parsing a response text as JSON yields, `None` when the
/// text is not valid JSON (or does not fit a TOML-style document). Parsing is
/// a function of the text alone, so the result can be named.
pub uninterp spec fn json_document_of(s: Seq<char>) -> Option<toml::Value>;

/// Relies on `serde_json::from_str`: parses JSON text into a `toml::Value`
/// document, deterministically, failing exactly on text it cannot parse.
#[verifier::external_body]
pub(crate) fn parse_json_document(text: &str) -> (r: Option<toml::Value>)
    ensures
        r is Some <==> json_document_of(text@) is Some,
        r is Some ==> r->0 == json_document_of(text@)->0,
{
    serde_json::from_str::<toml::Value>(text).ok()
}

/// The indented JSON rendering of a document, `None` when serialization
/// fails. Rendering is a function of the document alone, so the result can
/// be named.
pub uninterp spec fn pretty_text_of(v: toml::Value) -> Option<Seq<char>>;

/// Relies on `serde_json::to_string_pretty`: renders a document as indented
/// JSON text, deterministically.
#[verifier::external_body]
pub(crate) fn pretty_print_document(v: &toml::Value) -> (r: Option<String>)
    ensures
        r is Some <==> pretty_text_of(*v) is Some,
        r is Some ==> r->0@ == pretty_text_of(*v)->0,
{
    serde_json::to_string_pretty(v).ok()
}

} // verus!
