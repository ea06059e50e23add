//! The routes that serve stored result sets.
use vstd::prelude::*;

use crate::encoding::object_of_one;
use crate::jsl::JslStore;
use crate::routes::{route_error, text_argument};
use crate::text::concat2;
use crate::value::{array_value, Json, Value};

verus! {

/// The error for an id under which nothing is stored.
pub fn invalid_jslid(jslid: &str) -> (r: String)
    ensures
        r@ == crate::routes::error_text("Invalid jslid "@ + jslid@),
{
    route_error(concat2("Invalid jslid ", jslid).as_str())
}

/// `jsldata_get_stats`: the statistics of a result set.
pub fn get_stats(store: &JslStore, args: &Value) -> (r: Result<Value, String>)
    ensures
        match (r, args@.text("jslid"@)) {
            (Ok(v), Some(id)) => store@.dom().contains(id) && v@ == crate::jsl::stats_of(
                store@[id],
            ),
            (Ok(_), None) => false,
            (Err(e), Some(id)) => !store@.dom().contains(id) && e@ == crate::routes::error_text(
                "Invalid jslid "@ + id,
            ),
            (Err(e), None) => e@ == crate::routes::missing("get_stats"@, "jslid"@),
        },
{
    let jslid = match text_argument(args, "jslid", "get_stats") {
        Ok(j) => j,
        Err(e) => return Err(e),
    };
    match store.jsl_stats(jslid) {
        Some(v) => Ok(v),
        None => Err(invalid_jslid(jslid)),
    }
}

/// The number under `key`, or another where there is none.
pub open spec fn number_or(args: Json, key: Seq<char>, other: u64) -> u64 {
    match args.uint64(key) {
        Some(n) => n,
        None => other,
    }
}

/// `jsldata_get_rows`: a page of a result set, of a thousand rows from the first
/// on unless an offset or a limit is given.
pub fn get_rows(store: &JslStore, args: &Value) -> (r: Result<Value, String>)
    ensures
        match (r, args@.text("jslid"@)) {
            (Ok(v), Some(id)) => store@.dom().contains(id) && v@ == crate::encoding::one_member(
                "rows"@,
                Json::Array(
                    crate::jsl::page(
                        store@[id].rows,
                        number_or(args@, "offset"@, 0) as nat,
                        number_or(args@, "limit"@, 1000) as nat,
                    ),
                ),
            ),
            (Ok(_), None) => false,
            (Err(e), Some(id)) => !store@.dom().contains(id) && e@ == crate::routes::error_text(
                "Invalid jslid "@ + id,
            ),
            (Err(e), None) => e@ == crate::routes::missing("get_rows"@, "jslid"@),
        },
{
    let jslid = match text_argument(args, "jslid", "get_rows") {
        Ok(j) => j,
        Err(e) => return Err(e),
    };
    let offset: u64 = match args.uint64("offset") {
        Some(n) => n,
        None => 0,
    };
    let limit: u64 = match args.uint64("limit") {
        Some(n) => n,
        None => 1000,
    };
    match store.jsl_rows(jslid, offset, limit) {
        Some(rows) => Ok(object_of_one("rows", array_value(rows))),
        None => Err(invalid_jslid(jslid)),
    }
}

// ---------------------------------------------------------------------------
// Laws
// ---------------------------------------------------------------------------

/// A number that the arguments hold counts; the default stands for one that is missing or is no
/// whole number.
pub proof fn law_number(args: Json, key: Seq<char>, other: u64, n: u64)
    ensures
        args.get(key) == Some(Json::Int(n as int)) ==> number_or(args, key, other) == n,
        args.get(key) is None ==> number_or(args, key, other) == other,
        args.text(key) is Some ==> number_or(args, key, other) == other,
{
    crate::value::law_member_kinds(args, key);
}

} // verus!
