//! The OpenAI models and the environment description for them, and the
//! interpretation of what the moderation endpoint answers.

use vstd::prelude::*;

use crate::ai_prompt::api::{AiEnvInfo, AiMessage, CheckResult, PromptInfo, PromptResponse};
use crate::text::{append_str, string_from_chars};

verus! {

/// The chat models of OpenAI this crate knows.
#[derive(Clone, Copy, Debug, PartialEq, Eq, Structural)]
pub enum OpenAiModel {
    Gpt4,
    Gpt35Turbo,
    Gpt35TextDavinci003,
    Gpt35TextDavinci002,
    Gpt35CodeDavinci002,
}

/// The name of each model in the API.
pub open spec fn model_name(model: OpenAiModel) -> Seq<char> {
    match model {
        OpenAiModel::Gpt4 => "gpt-4"@,
        OpenAiModel::Gpt35Turbo => "gpt-3.5-turbo"@,
        OpenAiModel::Gpt35TextDavinci003 => "text-davinci-003"@,
        OpenAiModel::Gpt35TextDavinci002 => "text-davinci-002"@,
        OpenAiModel::Gpt35CodeDavinci002 => "code-davinci-002"@,
    }
}

/// The API name of `model`.
fn model_str(model: OpenAiModel) -> (res: &'static str)
    ensures
        res@ == model_name(model),
{
    match model {
        OpenAiModel::Gpt4 => "gpt-4",
        OpenAiModel::Gpt35Turbo => "gpt-3.5-turbo",
        OpenAiModel::Gpt35TextDavinci003 => "text-davinci-003",
        OpenAiModel::Gpt35TextDavinci002 => "text-davinci-002",
        OpenAiModel::Gpt35CodeDavinci002 => "code-davinci-002",
    }
}

impl vstd::std_specs::convert::FromSpecImpl<OpenAiModel> for &'static str {
    open spec fn obeys_from_spec() -> bool {
        true
    }

    open spec fn from_spec(v: OpenAiModel) -> &'static str {
        match v {
            OpenAiModel::Gpt4 => "gpt-4",
            OpenAiModel::Gpt35Turbo => "gpt-3.5-turbo",
            OpenAiModel::Gpt35TextDavinci003 => "text-davinci-003",
            OpenAiModel::Gpt35TextDavinci002 => "text-davinci-002",
            OpenAiModel::Gpt35CodeDavinci002 => "code-davinci-002",
        }
    }
}

impl From<OpenAiModel> for &'static str {
    fn from(value: OpenAiModel) -> (res: &'static str)
        ensures
            res@ == model_name(value),
    {
        match value {
            OpenAiModel::Gpt4 => "gpt-4",
            OpenAiModel::Gpt35Turbo => "gpt-3.5-turbo",
            OpenAiModel::Gpt35TextDavinci003 => "text-davinci-003",
            OpenAiModel::Gpt35TextDavinci002 => "text-davinci-002",
            OpenAiModel::Gpt35CodeDavinci002 => "code-davinci-002",
        }
    }
}

/// The moderation model used to check prompts.
pub open spec fn default_check_model() -> Seq<char> {
    "text-moderation-stable"@
}

/// Environment for running stuff against OpenAI models
#[derive(PartialEq, Eq, Debug)]
pub struct OpenAiEnv {
    /// e.g. gpt-3.5-turbo, text-davinci-003, etc.
    pub model: &'static str,
    /// e.g. text-moderation-stable, text-moderation-latest etc.
    pub check_model: &'static str,
}

impl OpenAiEnv {
    /// The environment for `model`, checked with the stable moderation model.
    pub fn from(model: OpenAiModel) -> (res: Self)
        ensures
            res.model@ == model_name(model),
            res.check_model@ == default_check_model(),
    {
        OpenAiEnv { model: model_str(model), check_model: "text-moderation-stable" }
    }

    /// Returns information on the ai environment
    pub fn info(&self) -> (res: AiEnvInfo)
        ensures
            res.name@ == "openai"@,
            res.model@ == self.model@,
            res.check_model matches Some(c) && c@ == self.check_model@,
    {
        AiEnvInfo {
            name: "openai".to_owned(),
            model: self.model.to_owned(),
            check_model: Some(self.check_model.to_owned()),
        }
    }

    /// The name of the environment: `openai--<model>`.
    pub fn name(&self) -> (res: String)
        ensures
            res@ == "openai--"@ + self.model@,
    {
        let mut out: Vec<char> = Vec::new();
        append_str(&mut out, "openai--");
        append_str(&mut out, self.model);
        string_from_chars(&out)
    }
}

/// The text sent to the moderation endpoint: each message's content on a
/// line of its own, each preceded by a line break.
pub open spec fn spec_moderation_input(primer: Seq<AiMessage>) -> Seq<char>
    decreases primer.len(),
{
    if primer.len() == 0 {
        Seq::<char>::empty()
    } else {
        spec_moderation_input(primer.drop_last()) + seq!['\n'] + primer.last().content@
    }
}

/// Every message is checked, whatever its role: the text for one message
/// is a line break and its content, and the text for messages one after the
/// other is their texts one after the other. So its length is the number of
/// messages plus the lengths of their contents.
pub proof fn law_moderation_input_checks_every_message(
    a: Seq<AiMessage>,
    b: Seq<AiMessage>,
    m: AiMessage,
)
    ensures
        spec_moderation_input(seq![m]) == seq!['\n'] + m.content@,
        spec_moderation_input(a + b) == spec_moderation_input(a) + spec_moderation_input(b),
        spec_moderation_input(a.push(m)).len() == spec_moderation_input(a).len() + 1
            + m.content@.len(),
    decreases b.len(),
{
    assert(seq![m].drop_last() =~= Seq::<AiMessage>::empty());
    assert(seq![m].last() == m);
    assert(spec_moderation_input(Seq::<AiMessage>::empty()) =~= Seq::<char>::empty());
    assert(spec_moderation_input(seq![m]) =~= seq!['\n'] + m.content@);
    assert(a.push(m).drop_last() =~= a);
    assert(a.push(m).last() == m);
    if b.len() == 0 {
        assert(a + b =~= a);
        assert(spec_moderation_input(b) =~= Seq::<char>::empty());
    } else {
        law_moderation_input_checks_every_message(a, b.drop_last(), m);
        assert((a + b).drop_last() =~= a + b.drop_last());
        assert((a + b).last() == b.last());
        assert(spec_moderation_input(a + b) =~= spec_moderation_input(a) + spec_moderation_input(
            b,
        ));
    }
}

/// The text of `primer` that is checked by moderation.
pub fn moderation_input(primer: &Vec<AiMessage>) -> (res: String)
    ensures
        res@ == spec_moderation_input(primer@),
{
    let mut out: Vec<char> = Vec::new();
    let mut i: usize = 0;
    while i < primer.len()
        invariant
            i <= primer@.len(),
            out@ == spec_moderation_input(primer@.take(i as int)),
        decreases primer@.len() - i,
    {
        assert(primer@.take(i + 1).drop_last() =~= primer@.take(i as int));
        out.push('\n');
        append_str(&mut out, primer[i].content.as_str());
        i = i + 1;
    }
    assert(primer@.take(primer@.len() as int) =~= primer@);
    string_from_chars(&out)
}

/// The categories a moderation result flags.
#[derive(Clone, Copy, Debug, PartialEq, Eq)]
pub struct ModerationCategories {
    pub hate: bool,
    pub hate_threatening: bool,
    pub self_harm: bool,
    pub sexual: bool,
    pub sexual_minors: bool,
    pub violence: bool,
    pub violence_graphic: bool,
}

/// One result of the moderation endpoint.
#[derive(Clone, Copy, Debug, PartialEq, Eq)]
pub struct ModerationResult {
    pub flagged: bool,
    pub categories: ModerationCategories,
}

/// What `serde_json::to_string` makes of an array holding one object that
/// maps each of `names` to the boolean at the same position (`None` when
/// it reports an error).
pub uninterp spec fn json_flag_object(names: Seq<Seq<char>>, values: Seq<bool>) -> Option<
    Seq<char>,
>;

/// Calls `serde_json::to_string` on `[{names[0]: values[0], ...}]`, built
/// as a `serde_json::Value`. Such a value has string keys only, so
/// serialising it cannot fail; the claim is that the text is a function of
/// the names and values.
#[verifier::external_body]
fn flag_object_json(names: &[&str], values: &[bool]) -> (res: Option<String>)
    requires
        names@.len() == values@.len(),
    ensures
        res is Some,
        res matches Some(s) ==> json_flag_object(names@.map_values(|n: &str| n@), values@) == Some(
            s@,
        ),
{
    let object: serde_json::Map<String, serde_json::Value> = names.iter().zip(values.iter()).map(
        |(n, v)| (n.to_string(), serde_json::Value::Bool(*v)),
    ).collect();
    serde_json::to_string(&serde_json::Value::Array(vec![serde_json::Value::Object(object)])).ok()
}

/// The category names in the order in which they are reported.
pub open spec fn category_names() -> Seq<Seq<char>> {
    seq![
        "hate"@,
        "hate_threatening"@,
        "self_harm"@,
        "sexual"@,
        "sexual_minors"@,
        "violence"@,
        "violence_graphic"@,
    ]
}

/// The category flags in the order of `category_names`.
pub open spec fn category_values(c: ModerationCategories) -> Seq<bool> {
    seq![
        c.hate,
        c.hate_threatening,
        c.self_harm,
        c.sexual,
        c.sexual_minors,
        c.violence,
        c.violence_graphic,
    ]
}

/// Why a moderation check did not come to a verdict.
#[derive(Debug)]
pub enum ModerationError {
    /// The endpoint returned no result.
    EmptyResult,
}

/// The verdict on the results of the moderation endpoint: the first result
/// decides; when it is flagged, its categories are reported as JSON.
pub fn moderation_verdict(results: &Vec<ModerationResult>) -> (res: Result<
    CheckResult,
    ModerationError,
>)
    ensures
        results@.len() == 0 <==> res matches Err(ModerationError::EmptyResult),
        results@.len() > 0 && !results@[0].flagged ==> res matches Ok(CheckResult::Passed),
        results@.len() > 0 && results@[0].flagged ==> (res matches Ok(CheckResult::Flagged(json))
            && json_flag_object(category_names(), category_values(results@[0].categories))
            == Some(json@)),
{
    if results.len() == 0 {
        return Err(ModerationError::EmptyResult);
    }
    let first = results[0];
    if !first.flagged {
        return Ok(CheckResult::Passed);
    }
    let c = first.categories;
    let names: [&str; 7] = [
        "hate",
        "hate_threatening",
        "self_harm",
        "sexual",
        "sexual_minors",
        "violence",
        "violence_graphic",
    ];
    let values: [bool; 7] = [
        c.hate,
        c.hate_threatening,
        c.self_harm,
        c.sexual,
        c.sexual_minors,
        c.violence,
        c.violence_graphic,
    ];
    assert(names@.map_values(|n: &str| n@) =~= category_names());
    assert(values@ =~= category_values(c));
    match flag_object_json(&names, &values) {
        Some(json) => Ok(CheckResult::Flagged(json)),
        None => Err(ModerationError::EmptyResult),
    }
}

/// Token usage as the chat endpoint reports it.
#[derive(Clone, Copy, Debug, PartialEq, Eq)]
pub struct TokenUsage {
    pub prompt_tokens: u32,
    pub completion_tokens: u32,
    pub total_tokens: u32,
}

/// The response of a chat completion: the content of the first choice and
/// the usage, counted as zero when it is not reported.
pub fn chat_response(
    env_info: AiEnvInfo,
    prompt_info: PromptInfo,
    content: String,
    usage: Option<TokenUsage>,
) -> (res: PromptResponse)
    ensures
        res.env_info == env_info,
        res.prompt_info == prompt_info,
        res.content == content,
        match usage {
            Some(u) => res.prompt_tokens == u.prompt_tokens && res.completion_tokens
                == u.completion_tokens && res.total_tokens == u.total_tokens,
            None => res.prompt_tokens == 0 && res.completion_tokens == 0 && res.total_tokens
                == 0,
        },
{
    let (c, p, t) = match usage {
        Some(u) => (u.completion_tokens, u.prompt_tokens, u.total_tokens),
        None => (0u32, 0u32, 0u32),
    };
    PromptResponse {
        env_info,
        prompt_info,
        content,
        completion_tokens: c as i64,
        prompt_tokens: p as i64,
        total_tokens: t as i64,
    }
}

} // verus!
