//! Prompts that classify a single statement with a chat model, and the
//! interpretation of the answers.

use vstd::prelude::*;

use crate::ai_prompt::api::{AiMessage, AiRole};
use crate::prediction::data::{
    axis_named, value_named, BigFivePersonaAxis, BigFivePersonaTrait, BigFivePersonaValue,
};
use crate::prediction::prompts::message_is;
use crate::text::{append_str, string_from_chars};

verus! {

/// An early prompt for topic classification, kept for reference; it has no
/// effect.
pub fn determine_topics() {
    let _prompt = r###"
Given these statements:

1 | Deutschland hat mit Angela Merkel heute mehr Probleme als Lösungen parat
2 | Meine Eltern haben mich nicht gut erzogen
3 | Liebe ist schmerzvoll
4 | Zu viel fernsehen führt zu Verblödung
5 | Die Ukraine wird durch Putin zerstört


put them into one of these categories:
1 | Politics
2 | Psychology

Use JSON:
[{"sid": <sid>, "cid": <cid>}]
"###;
}

/// An early prompt for the Inglehart-Welzel map, kept for reference; it
/// has no effect.
pub fn determine_inglehart_welzel_map() {
    let _prompt = r###"
Family ties stay forever: Yes.

Regarding the above response of a person to a statement. Categorize the person with "none", "some" or "great" for each of the following scales and explain:
1. Traditional values
2. secular-rational values
3. Survival values
4. self-expression values
"###;
}

/// The system message that primes the model to answer with a big five
/// trait in JSON.
pub const BIG_FIVE_PRIMING: &'static str = r###"
You act as a tool to categorize public statements according to the big five personality traits.

I sometimes enjoy trying new foods and cuisines from different cultures.
JSON:
{"big-five-personality-trait": "openness-to-experience", "value": "medium", "notes": ""}

I talk to a lot of different people at parties.
JSON:
{"big-five-personality-trait": "extraversion", "value": "high", "notes": ""}

The way refugees behave in germany is outrageous and should be sanctioned!
JSON:
{"big-five-personality-trait": "agreeableness", "value": "low", "notes": "hateful"}

"###;

/// The question about `statement`: the statement on a line of its own,
/// followed by a line asking for JSON.
pub open spec fn big_five_question(statement: Seq<char>) -> Seq<char> {
    seq!['\n'] + statement + "\nJSON:\n"@
}

/// The conversation asking a model for the big five trait of `statement`.
pub fn big_five_prompt(statement: &str) -> (res: Vec<AiMessage>)
    ensures
        res@.len() == 2,
        message_is(res@[0], AiRole::System, BIG_FIVE_PRIMING@),
        message_is(res@[1], AiRole::User, big_five_question(statement@)),
{
    let mut question: Vec<char> = Vec::new();
    question.push('\n');
    append_str(&mut question, statement);
    append_str(&mut question, "\nJSON:\n");
    let question = string_from_chars(&question);
    let mut res: Vec<AiMessage> = Vec::new();
    res.push(AiMessage::system(BIG_FIVE_PRIMING));
    res.push(AiMessage::user(question.as_str()));
    res
}

/// What `serde_json::from_str::<serde_json::Value>` followed by indexing
/// with `key` and `as_str` gives: `None` when the text is not JSON,
/// otherwise the string found under `key`, if there is one.
pub uninterp spec fn json_str_field(text: Seq<char>, key: Seq<char>) -> Option<Option<Seq<char>>>;

/// Calls `serde_json::from_str` on `text` and reads the string under `key`
/// with `Value::as_str`. The claim is that the outcome is a function of the
/// text and the key, and that whether the text parses does not depend on
/// the key.
#[verifier::external_body]
fn json_string_field(text: &str, key: &str) -> (res: Option<Option<String>>)
    ensures
        res is None <==> forall|k: Seq<char>| #[trigger] json_str_field(text@, k) is None,
        match (res, json_str_field(text@, key@)) {
            (None, None) => true,
            (Some(None), Some(None)) => true,
            (Some(Some(v)), Some(Some(w))) => v@ == w,
            _ => false,
        },
{
    match serde_json::from_str::<serde_json::Value>(text) {
        Ok(value) => Some(value[key].as_str().map(|s| s.to_string())),
        Err(_) => None,
    }
}

/// Why no trait could be read from an answer.
#[derive(Debug)]
pub enum PersonaError {
    /// The answer is not JSON.
    InvalidJson,
    /// The answer lacks a string field for the trait or its level.
    UnableToParseTrait,
}

/// The trait named by the two fields of an answer; an error when either
/// is missing.
pub fn persona_trait_from_fields(trait_name: Option<String>, level: Option<String>) -> (res: Result<
    BigFivePersonaTrait,
    PersonaError,
>)
    ensures
        match res {
            Ok(t) => trait_name matches Some(a) && level matches Some(v) && axis_named(a@, t.axis)
                && value_named(v@, t.value),
            Err(PersonaError::UnableToParseTrait) => trait_name is None || level is None,
            Err(PersonaError::InvalidJson) => false,
        },
{
    match (trait_name, level) {
        (Some(a), Some(v)) => Ok(
            BigFivePersonaTrait {
                axis: BigFivePersonaAxis::from_str(a.as_str()),
                value: BigFivePersonaValue::from_str(v.as_str()),
            },
        ),
        _ => Err(PersonaError::UnableToParseTrait),
    }
}

/// The trait a model answered with `raw`, a JSON object with the fields
/// `big-five-personality-trait` and `value`.
pub fn persona_trait_from_answer(raw: &str) -> (res: Result<BigFivePersonaTrait, PersonaError>)
    ensures
        match (json_str_field(raw@, "big-five-personality-trait"@), json_str_field(
            raw@,
            "value"@,
        )) {
            (None, _) => res matches Err(PersonaError::InvalidJson),
            (Some(a), Some(v)) => match res {
                Ok(t) => a matches Some(an) && v matches Some(vn) && axis_named(an, t.axis)
                    && value_named(vn, t.value),
                Err(PersonaError::UnableToParseTrait) => a is None || v is None,
                Err(PersonaError::InvalidJson) => false,
            },
            (Some(_), None) => false,
        },
{
    let trait_name = json_string_field(raw, "big-five-personality-trait");
    match trait_name {
        None => Err(PersonaError::InvalidJson),
        Some(a) => {
            let level = json_string_field(raw, "value");
            match level {
                None => Err(PersonaError::InvalidJson),
                Some(v) => persona_trait_from_fields(a, v),
            }
        },
    }
}

} // verus!
