//! The JSON value type of `serde_json`, carried through the library opaquely,
//! and the one JSON rendering that the library's logic relies on.
use vstd::prelude::*;

verus! {

/// A `serde_json::Value`: arbitrary JSON, opaque to the library.
#[verifier::external_type_specification]
#[verifier::external_body]
pub struct ExJsonValue(serde_json::Value);

/// Relies on the derived `Clone` of `serde_json::Value`: the copy is the same value.
pub assume_specification[ <serde_json::Value as Clone>::clone ](v: &serde_json::Value) -> (r: serde_json::Value)
    ensures
        r == *v,
;

/// The pretty-printed JSON array of strings that `serde_json` renders for `items`.
pub uninterp spec fn pretty_json_of_strings(items: Seq<Seq<char>>) -> Seq<char>;

/// The views of a vector of strings.
pub open spec fn string_views(v: Seq<String>) -> Seq<Seq<char>> {
    v.map_values(|s: String| s@)
}

/// A `serde_json::Error`, opaque to the library.
#[verifier::external_type_specification]
#[verifier::external_body]
pub struct ExJsonError(serde_json::Error);

/// Relies on `serde_json::to_string_pretty`: a vector of strings is rendered
/// as a JSON array whose text depends on the strings alone. The call fails
/// only where a `Serialize` impl fails or a map has keys that are not
/// strings, and writing into memory cannot fail, so for strings it succeeds.
#[verifier::external_body]
pub(crate) fn strings_to_pretty_json(items: &Vec<String>) -> (r: Result<String, serde_json::Error>)
    ensures
        r is Ok,
        r matches Ok(s) ==> s@ == pretty_json_of_strings(string_views(items@)),
{
    serde_json::to_string_pretty(items)
}

} // verus!
