//! The history of executed queries: one JSON value per line.
use vstd::prelude::*;

use crate::text::concat2;
use crate::value::{clone_value, no_members, object_value, Json, Value};

verus! {

/// The entry in the arguments, an empty object where there is none.
pub open spec fn entry_in(args: Json) -> Json {
    match args.get("data"@) {
        Some(v) => v,
        None => Json::Object(Seq::empty()),
    }
}

/// `query_history_write`: the entry to append.
pub fn entry(args: &Value) -> (r: Value)
    ensures
        r@ == entry_in(args@),
{
    match args.get("data") {
        Some(v) => clone_value(v),
        None => object_value(no_members()),
    }
}

/// The line that is appended for an entry, given its JSON text.
pub fn history_line(json: &str) -> (r: String)
    ensures
        r@ == json@ + "\n"@,
{
    concat2(json, "\n")
}

// ---------------------------------------------------------------------------
// Laws
// ---------------------------------------------------------------------------

/// The entry is what the arguments hold under `data`, and an empty object where they hold
/// nothing.
pub proof fn law_entry(args: Json)
    ensures
        args.get("data"@) matches Some(v) ==> entry_in(args) == v,
        args.get("data"@) is None ==> entry_in(args) == Json::Object(Seq::empty()),
{
}

} // verus!
