//! How the routes read a failed database statement.

use vstd::prelude::*;

verus! {

/// A failed database statement, as far as the routes tell failures apart.
#[derive(Debug, PartialEq, Eq, Structural, Clone, Copy)]
pub enum DbFailure {
    /// The statement referred to a row that does not exist (SQLSTATE `23503`).
    ForeignKeyViolation,
    Other,
}

/// Reads the SQLSTATE code of a failed statement, when the database gave one.
pub fn classify_db_error(code: Option<&str>) -> (r: DbFailure)
    ensures
        r == DbFailure::ForeignKeyViolation <==> (code matches Some(c) && c@ == "23503"@),
{
    match code {
        Some(c) => {
            let given = c.to_string();
            let foreign_key_violation = "23503".to_string();
            if given == foreign_key_violation {
                DbFailure::ForeignKeyViolation
            } else {
                DbFailure::Other
            }
        },
        None => DbFailure::Other,
    }
}

} // verus!
