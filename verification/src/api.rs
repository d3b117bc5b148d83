//! The JSON API.

use vstd::prelude::*;

use crate::structs::Statement;

verus! {

/// A statement as the API hands it out.
#[derive(Debug)]
pub struct ApiStatement {
    pub id: i64,
    pub text: String,
}

impl ApiStatement {
    /// The API form of a statement.
    pub fn from_statement(statement: Statement) -> (res: ApiStatement)
        ensures
            res.id == statement.id,
            res.text == statement.text,
    {
        ApiStatement { id: statement.id, text: statement.text }
    }
}

} // verus!
