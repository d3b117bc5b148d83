//! Various structs used all over.

use vstd::prelude::*;

verus! {

/// Representation of a user.
#[derive(Debug)]
pub struct User {
    pub id: i64,
    pub secret: String,
}

/// Represents a voting history entry
pub struct VoteHistoryItem {
    pub statement_id: i64,
    pub statement_text: String,
    pub vote_timestamp: i64,
    pub vote: i64,
}

/// Represents a statement
#[derive(Debug)]
pub struct Statement {
    pub id: i64,
    pub text: String,
}

/// The answer of a user to a statement.
#[derive(Debug, PartialEq, Eq, Copy, Clone, Structural)]
pub enum Vote {
    No,
    Skip,
    Yes,
    ItDepends,
}

/// The number stored for each vote.
pub open spec fn vote_value(v: Vote) -> int {
    match v {
        Vote::No => -1,
        Vote::Skip => 0,
        Vote::Yes => 1,
        Vote::ItDepends => 2,
    }
}

/// Errors of the domain types.
#[derive(Debug)]
pub enum Error {
    CustomError(String),
}

impl Vote {
    /// The vote stored as `vote`, if it is a known value.
    pub fn from(vote: i64) -> (res: Result<Vote, Error>)
        ensures
            match res {
                Ok(v) => vote_value(v) == vote,
                Err(Error::CustomError(msg)) => {
                    &&& msg@ == "Unknown vote value"@
                    &&& vote != -1 && vote != 0 && vote != 1 && vote != 2
                },
            },
    {
        if vote == -1 {
            Ok(Vote::No)
        } else if vote == 0 {
            Ok(Vote::Skip)
        } else if vote == 1 {
            Ok(Vote::Yes)
        } else if vote == 2 {
            Ok(Vote::ItDepends)
        } else {
            Err(Error::CustomError("Unknown vote value".to_owned()))
        }
    }

    /// The number under which the vote is stored.
    pub fn value(self) -> (res: i64)
        ensures
            res == vote_value(self),
    {
        match self {
            Vote::No => -1,
            Vote::Skip => 0,
            Vote::Yes => 1,
            Vote::ItDepends => 2,
        }
    }
}

/// Distinct votes are stored as distinct numbers, so reading back the
/// number of a vote gives that vote.
pub proof fn law_vote_value_round_trip(a: Vote, b: Vote)
    ensures
        vote_value(a) == vote_value(b) ==> a == b,
        -1 <= vote_value(a) <= 2,
{
}

/// The users a follow-up statement is shown to: those who voted yes and/or
/// no on `statement_id`.
#[derive(Debug, PartialEq, Eq, Copy, Clone, Structural)]
pub struct TargetSegment {
    pub statement_id: i64,
    pub voted_yes: bool,
    pub voted_no: bool,
}

/// Link preview data of a page.
#[derive(Debug)]
pub struct PageMeta {
    pub title: Option<String>,
    pub description: Option<String>,
    pub url: Option<String>,
}

/// A stored prediction for one statement.
#[derive(Clone, Debug)]
pub struct StatementPrediction {
    pub statement_id: i64,
    pub ai_env: String,
    pub prompt_name: String,
    pub prompt_version: i64,
    pub prompt_result: String,
    pub completion_tokens: i64,
    pub prompt_tokens: i64,
    pub total_tokens: i64,
    pub timestamp: i64,
}

} // verus!
