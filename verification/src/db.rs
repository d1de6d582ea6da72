//! What the handlers learn from a failed database call, and how they sort it.

use vstd::prelude::*;
use vstd::string::StringExecFns;

verus! {

/// A failed database call, as far as the handlers look into it.
#[derive(Debug)]
pub enum DbFailure {
    /// A query that should return a row returned none.
    RowNotFound,
    /// The database refused the statement; its SQLSTATE code and the
    /// violated constraint, when it names them.
    Database { code: Option<String>, constraint: Option<String>, message: String },
    /// Any other failure (connection, decoding, ...).
    Other { message: String },
}

/// Whether `f` is the database refusing a statement with `code` on `constraint`.
pub open spec fn is_violation(f: DbFailure, code: Seq<char>, constraint: Seq<char>) -> bool {
    match f {
        DbFailure::Database { code: Some(c), constraint: Some(k), .. } => c@ == code && k@ == constraint,
        _ => false,
    }
}

/// SQLSTATE for a unique-constraint violation.
pub const UNIQUE_VIOLATION: &'static str = "23505";

/// SQLSTATE for a foreign-key violation.
pub const FOREIGN_KEY_VIOLATION: &'static str = "23503";

/// Whether `f` is the database refusing a statement with `code` on `constraint`.
pub fn violates(f: &DbFailure, code: &str, constraint: &str) -> (r: bool)
    ensures
        r == is_violation(*f, code@, constraint@),
{
    match f {
        DbFailure::Database { code: Some(c), constraint: Some(k), .. } => {
            let code = String::from_str(code);
            let constraint = String::from_str(constraint);
            *c == code && *k == constraint
        },
        _ => false,
    }
}

/// The text of the row-not-found failure, as `sqlx` writes it.
pub const ROW_NOT_FOUND_TEXT: &'static str = "no rows returned by a query that expected to return at least one row";

impl DbFailure {
    /// What the failure says of itself: the database's message, or the
    /// text of a missing row.
    pub open spec fn spec_text(&self) -> Seq<char> {
        match self {
            DbFailure::RowNotFound => ROW_NOT_FOUND_TEXT@,
            DbFailure::Database { message, .. } => message@,
            DbFailure::Other { message } => message@,
        }
    }

    /// What the failure says of itself.
    pub fn text(&self) -> (r: String)
        ensures
            r@ == self.spec_text(),
    {
        match self {
            DbFailure::RowNotFound => String::from_str(ROW_NOT_FOUND_TEXT),
            DbFailure::Database { message, .. } => message.clone(),
            DbFailure::Other { message } => message.clone(),
        }
    }

    /// Whether no row was found.
    pub fn is_row_not_found(&self) -> (r: bool)
        ensures
            r == (*self is RowNotFound),
    {
        match self {
            DbFailure::RowNotFound => true,
            _ => false,
        }
    }
}

} // verus!
