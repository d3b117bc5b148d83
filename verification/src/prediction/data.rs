//! The big five personality traits as a model names them.

use vstd::prelude::*;

use crate::text::str_eq;

verus! {

/// One of the big five personality axes.
#[derive(Debug)]
pub enum BigFivePersonaAxis {
    OpennessToExperience,
    Conscientiousness,
    Extraversion,
    Agreeableness,
    Neuroticism,
    Unknown(String),
}

/// The name under which a model reports each known axis.
pub open spec fn axis_named(s: Seq<char>, axis: BigFivePersonaAxis) -> bool {
    match axis {
        BigFivePersonaAxis::OpennessToExperience => s == "openness-to-experience"@,
        BigFivePersonaAxis::Conscientiousness => s == "conscientiousness"@,
        BigFivePersonaAxis::Extraversion => s == "extraversion"@,
        BigFivePersonaAxis::Agreeableness => s == "agreeableness"@,
        BigFivePersonaAxis::Neuroticism => s == "neuroticism"@,
        BigFivePersonaAxis::Unknown(u) => {
            &&& u@ == s
            &&& s != "openness-to-experience"@
            &&& s != "conscientiousness"@
            &&& s != "extraversion"@
            &&& s != "agreeableness"@
            &&& s != "neuroticism"@
        },
    }
}

impl BigFivePersonaAxis {
    /// The axis a model names; unknown names are kept.
    pub fn from_str(s: &str) -> (res: BigFivePersonaAxis)
        ensures
            axis_named(s@, res),
    {
        if str_eq(s, "openness-to-experience") {
            BigFivePersonaAxis::OpennessToExperience
        } else if str_eq(s, "conscientiousness") {
            BigFivePersonaAxis::Conscientiousness
        } else if str_eq(s, "extraversion") {
            BigFivePersonaAxis::Extraversion
        } else if str_eq(s, "agreeableness") {
            BigFivePersonaAxis::Agreeableness
        } else if str_eq(s, "neuroticism") {
            BigFivePersonaAxis::Neuroticism
        } else {
            BigFivePersonaAxis::Unknown(s.to_owned())
        }
    }
}

/// How strongly a trait shows.
#[derive(Debug)]
pub enum BigFivePersonaValue {
    Low,
    Medium,
    High,
    Unknown(String),
}

/// The name under which a model reports each known level.
pub open spec fn value_named(s: Seq<char>, value: BigFivePersonaValue) -> bool {
    match value {
        BigFivePersonaValue::High => s == "high"@,
        BigFivePersonaValue::Medium => s == "medium"@,
        BigFivePersonaValue::Low => s == "low"@,
        BigFivePersonaValue::Unknown(u) => {
            &&& u@ == s
            &&& s != "high"@
            &&& s != "medium"@
            &&& s != "low"@
        },
    }
}

impl BigFivePersonaValue {
    /// The level a model names; unknown names are kept.
    pub fn from_str(s: &str) -> (res: BigFivePersonaValue)
        ensures
            value_named(s@, res),
    {
        if str_eq(s, "high") {
            BigFivePersonaValue::High
        } else if str_eq(s, "medium") {
            BigFivePersonaValue::Medium
        } else if str_eq(s, "low") {
            BigFivePersonaValue::Low
        } else {
            BigFivePersonaValue::Unknown(s.to_owned())
        }
    }
}

/// A trait on an axis with its level.
#[derive(Debug)]
pub struct BigFivePersonaTrait {
    pub axis: BigFivePersonaAxis,
    pub value: BigFivePersonaValue,
}

} // verus!
