//! The JSON library at the edge of the configuration file.
//!
//! What the three functions here promise is not proved: it is taken on
//! trust of `serde_json`, and the rest of the crate reasons from these
//! statements alone. What the library reads and writes is given a name, not
//! spelled out.

use std::collections::BTreeMap;
use vstd::prelude::*;

verus! {

/// The members of a JSON text, as `serde_json::from_str` reads them when it
/// is asked for an object whose members are objects of strings: each member
/// with its name and its entries, in the order in which a `BTreeMap` holds
/// them. `None` where it reports an error.
pub uninterp spec fn json_members(text: Seq<char>) -> Option<
    Seq<(Seq<char>, Seq<(Seq<char>, Seq<char>)>)>,
>;

/// The JSON text that `serde_json::to_string_pretty` writes for an object
/// with these members. `None` where it reports an error.
pub uninterp spec fn json_text(members: Seq<(Seq<char>, Seq<(Seq<char>, Seq<char>)>)>) -> Option<
    Seq<char>,
>;

/// Makes `serde_json::Error` known to the verifier, as a value of which
/// nothing is known.
#[verifier::external_type_specification]
#[verifier::external_body]
pub struct ExJsonError(serde_json::Error);

/// Calls `serde_json::from_str` for a `BTreeMap` of `BTreeMap`s of strings,
/// and lists what it gives in the order of the maps. Trusted: the result is
/// what `json_members` names, and an error comes exactly where that is
/// `None`.
#[verifier::external_body]
pub(crate) fn parse_members(text: &str) -> (members: Result<
    Vec<(String, Vec<(String, String)>)>,
    serde_json::Error,
>)
    ensures
        match members {
            Ok(list) => json_members(text@) == Some(list.deep_view()),
            Err(_) => json_members(text@) is None,
        },
{
    let object: BTreeMap<String, BTreeMap<String, String>> = serde_json::from_str(text)?;
    Ok(object.into_iter().map(|(name, inner)| (name, inner.into_iter().collect())).collect())
}

/// No two entries have the same name.
pub open spec fn entry_names_differ(entries: Seq<(Seq<char>, Seq<char>)>) -> bool {
    forall|i: int, j: int|
        0 <= i < j < entries.len() ==> (#[trigger] entries[i]).0 != (#[trigger] entries[j]).0
}

/// No two members have the same name, and within a member no two entries
/// have.
pub open spec fn names_differ(members: Seq<(Seq<char>, Seq<(Seq<char>, Seq<char>)>)>) -> bool {
    &&& forall|i: int, j: int|
        0 <= i < j < members.len() ==> (#[trigger] members[i]).0 != (#[trigger] members[j]).0
    &&& forall|i: int| 0 <= i < members.len() ==> entry_names_differ((#[trigger] members[i]).1)
}

/// Calls `serde_json::to_string_pretty` on the members as a `BTreeMap` of
/// `BTreeMap`s of strings. The names have to differ, so that the maps hold
/// every member and every entry. Trusted: the result is what `json_text`
/// names, and an error comes exactly where that is `None`.
#[verifier::external_body]
pub(crate) fn render_members(members: &Vec<(String, Vec<(String, String)>)>) -> (text: Result<
    String,
    serde_json::Error,
>)
    requires
        names_differ(members.deep_view()),
    ensures
        match text {
            Ok(written) => json_text(members.deep_view()) == Some(written@),
            Err(_) => json_text(members.deep_view()) is None,
        },
{
    let object: BTreeMap<&String, BTreeMap<&String, &String>> = members.iter().map(
        |(name, inner)| (name, inner.iter().map(|(key, action)| (key, action)).collect()),
    ).collect();
    serde_json::to_string_pretty(&object)
}

/// Calls the `to_string` that `serde_json::Error` has from its `Display`
/// impl. Nothing is claimed of the message.
#[verifier::external_body]
pub(crate) fn describe(error: &serde_json::Error) -> String {
    error.to_string()
}

} // verus!
