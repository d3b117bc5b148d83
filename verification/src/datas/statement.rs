//! Moderation flags of statements.

use vstd::prelude::*;

verus! {

/// One moderation category and whether it applies.
#[derive(Debug, Eq, PartialEq, Clone)]
pub struct FlagCategory {
    /// Name of the flag. e.g. "hate"
    pub name: String,
    /// If true the flag is active, else it is not
    pub value: bool,
}

/// The categories a statement was flagged with, if they are known.
#[derive(Debug, Eq, PartialEq, Clone)]
pub enum FlagCategoryContainer {
    Empty,
    Vec(Vec<FlagCategory>),
}

/// Describes the flagging status of a statement through e.g. a moderation API
#[derive(Debug, PartialEq, Eq, Copy, Clone, Structural)]
pub enum StatementFlagState {
    /// No flags
    Clear,
    /// Might be flagged and requires a thorough check
    MaybeFlagged,
    /// Actually flagged with one or more flags
    Flagged,
}

/// The number each state is stored as.
pub open spec fn flag_state_value(s: StatementFlagState) -> i64 {
    match s {
        StatementFlagState::Clear => 0,
        StatementFlagState::MaybeFlagged => 1,
        StatementFlagState::Flagged => 2,
    }
}

/// The state stored as `value`; unknown values read as `Clear`.
pub open spec fn flag_state_of(value: i64) -> StatementFlagState {
    if value == 1 {
        StatementFlagState::MaybeFlagged
    } else if value == 2 {
        StatementFlagState::Flagged
    } else {
        StatementFlagState::Clear
    }
}

impl StatementFlagState {
    /// The number under which the state is stored.
    pub fn value(self) -> (res: i64)
        ensures
            res == flag_state_value(self),
    {
        match self {
            StatementFlagState::Clear => 0,
            StatementFlagState::MaybeFlagged => 1,
            StatementFlagState::Flagged => 2,
        }
    }
}

impl vstd::std_specs::convert::FromSpecImpl<i64> for StatementFlagState {
    open spec fn obeys_from_spec() -> bool {
        true
    }

    open spec fn from_spec(v: i64) -> StatementFlagState {
        flag_state_of(v)
    }
}

impl From<i64> for StatementFlagState {
    fn from(value: i64) -> (res: StatementFlagState) {
        if value == 1 {
            StatementFlagState::MaybeFlagged
        } else if value == 2 {
            StatementFlagState::Flagged
        } else {
            StatementFlagState::Clear
        }
    }
}

/// Reading back a stored state gives the state.
pub proof fn law_flag_state_round_trip(s: StatementFlagState)
    ensures
        flag_state_of(flag_state_value(s)) == s,
{
}

/// The moderation flag of a statement.
#[derive(Clone, Debug)]
pub struct StatementFlag {
    pub statement_id: i64,
    pub state: StatementFlagState,
    pub categories: FlagCategoryContainer,
    pub created: i64,
}

impl StatementFlag {
    /// The record created for a statement that had no flag, before the
    /// store sets its creation time.
    pub fn new_record(statement_id: i64, state: StatementFlagState, categories: FlagCategoryContainer) -> (res: StatementFlag)
        ensures
            res.statement_id == statement_id,
            res.state == state,
            res.categories == categories,
            res.created == 0,
    {
        StatementFlag { statement_id, state, categories, created: 0 }
    }
}

} // verus!
