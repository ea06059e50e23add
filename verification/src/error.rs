//! Shared error type.
//!
//! All crate errors funnel into [`DbgmError`], which carries a stable
//! `DBGM-00000` style code plus a message.
use vstd::prelude::*;

use crate::text::{concat2, concat3};

verus! {

/// Sentinel code of errors that have no code of their own.
pub const DBGM_GENERIC: &'static str = "DBGM-00000";

/// An error: its code, its message, and the text of what caused it.
#[derive(Debug)]
pub struct DbgmError {
    pub code: String,
    pub message: String,
    pub source: Option<String>,
}

/// What a [`DbgmError`] holds.
pub struct DbgmErrorView {
    pub code: Seq<char>,
    pub message: Seq<char>,
    pub source: Option<Seq<char>>,
}

impl DeepView for DbgmError {
    type V = DbgmErrorView;

    open spec fn deep_view(&self) -> DbgmErrorView {
        DbgmErrorView {
            code: self.code@,
            message: self.message@,
            source: self.source.deep_view(),
        }
    }
}

/// The error that carries the generic code and nothing but a message.
pub open spec fn generic_error(message: Seq<char>) -> DbgmErrorView {
    DbgmErrorView { code: DBGM_GENERIC@, message, source: None }
}

impl DbgmError {
    pub fn new(message: String) -> (r: Self)
        ensures
            r.deep_view() == generic_error(message@),
    {
        DbgmError { code: DBGM_GENERIC.to_owned(), message, source: None }
    }

    /// An error with the text of its cause.
    pub fn with_source(message: String, source: String) -> (r: Self)
        ensures
            r.deep_view() == (DbgmErrorView {
                code: DBGM_GENERIC@,
                message: message@,
                source: Some(source@),
            }),
    {
        DbgmError { code: DBGM_GENERIC.to_owned(), message, source: Some(source) }
    }

    pub fn code(message: String, code: String) -> (r: Self)
        ensures
            r.deep_view() == (DbgmErrorView { code: code@, message: message@, source: None }),
    {
        DbgmError { code, message, source: None }
    }

    /// The error for a failure of SQLite, given its text.
    pub fn sqlite(cause: String) -> (r: Self)
        ensures
            r.deep_view() == (DbgmErrorView {
                code: DBGM_GENERIC@,
                message: "SQLite error: "@ + cause@,
                source: Some(cause@),
            }),
    {
        Self::with_source(concat2("SQLite error: ", cause.as_str()), cause)
    }

    /// The error for ill-formed JSON, given its text.
    pub fn json(cause: String) -> (r: Self)
        ensures
            r.deep_view() == (DbgmErrorView {
                code: DBGM_GENERIC@,
                message: "JSON error: "@ + cause@,
                source: Some(cause@),
            }),
    {
        Self::with_source(concat2("JSON error: ", cause.as_str()), cause)
    }

    /// The error for a failure of the file system, given its text.
    pub fn io(cause: String) -> (r: Self)
        ensures
            r.deep_view() == (DbgmErrorView {
                code: DBGM_GENERIC@,
                message: "IO error: "@ + cause@,
                source: Some(cause@),
            }),
    {
        Self::with_source(concat2("IO error: ", cause.as_str()), cause)
    }

    /// The error as text: `{code}: {message}`.
    pub fn to_string(&self) -> (r: String)
        ensures
            r@ == self.code@ + ": "@ + self.message@,
    {
        concat3(self.code.as_str(), ": ", self.message.as_str())
    }
}

/// Convenience alias for `Result<T, DbgmError>`.
pub type DbgmResult<T> = Result<T, DbgmError>;

// ---------------------------------------------------------------------------
// Laws
// ---------------------------------------------------------------------------

/// An error of its own has the general code and no cause.
pub proof fn law_generic_error(message: Seq<char>)
    ensures
        generic_error(message).code == "DBGM-00000"@,
        generic_error(message).message == message,
        generic_error(message).source is None,
{
}

} // verus!
