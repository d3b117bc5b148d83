//! The model-independent description of prompts, messages and responses.

use vstd::prelude::*;

verus! {

/// Contains the information to identify an ai environment
#[derive(Clone, PartialEq, Eq, Debug)]
pub struct AiEnvInfo {
    /// Name of the provider. e.g. "openai"
    pub name: String,
    /// Actual model used
    pub model: String,
    /// Model to use for checking / moderating
    pub check_model: Option<String>,
}

/// Contains the information to identify a used prompt
#[derive(Clone, PartialEq, Eq, Debug)]
pub struct PromptInfo {
    /// Name of the prompt function
    pub name: String,
    /// Used version
    pub version: u16,
}

/// Contains the result of checking a prompt against e.g. a moderation api
#[derive(Debug)]
pub enum CheckResult {
    /// Everything OK
    Passed,
    /// Flagged as inappropriate
    Flagged(String),
}

/// The label under which results of an environment are stored:
/// `"<model>,<name>"`.
pub open spec fn env_label(info: AiEnvInfo) -> Seq<char> {
    info.model@ + seq![','] + info.name@
}

impl AiEnvInfo {
    /// The label under which results of this environment are stored.
    pub fn label(&self) -> (res: String)
        ensures
            res@ == env_label(*self),
    {
        let mut out = crate::text::chars_of(self.model.as_str());
        out.push(',');
        crate::text::append_str(&mut out, self.name.as_str());
        crate::text::string_from_chars(&out)
    }
}

impl vstd::std_specs::convert::FromSpecImpl<AiEnvInfo> for String {
    open spec fn obeys_from_spec() -> bool {
        false
    }

    open spec fn from_spec(v: AiEnvInfo) -> String {
        arbitrary()
    }
}

impl From<AiEnvInfo> for String {
    fn from(value: AiEnvInfo) -> (res: String)
        ensures
            res@ == env_label(value),
    {
        value.label()
    }
}

/// Who speaks a message of a conversation with a model.
#[derive(Clone, Copy, Debug, PartialEq, Eq, Structural)]
pub enum AiRole {
    System,
    User,
    Assistant,
}

/// One message of a conversation with a model.
#[derive(Clone, Debug)]
pub struct AiMessage {
    pub role: AiRole,
    pub content: String,
}

impl AiMessage {
    /// A message of the system, priming the model.
    pub fn system(s: &str) -> (res: Self)
        ensures
            res.role == AiRole::System,
            res.content@ == s@,
    {
        AiMessage { role: AiRole::System, content: s.to_owned() }
    }

    /// A message of the user.
    pub fn user(s: &str) -> (res: Self)
        ensures
            res.role == AiRole::User,
            res.content@ == s@,
    {
        AiMessage { role: AiRole::User, content: s.to_owned() }
    }

    /// A message of the model.
    pub fn assistant(s: &str) -> (res: Self)
        ensures
            res.role == AiRole::Assistant,
            res.content@ == s@,
    {
        AiMessage { role: AiRole::Assistant, content: s.to_owned() }
    }
}

/// What a model answered to a prompt, with the token usage.
#[derive(Clone, Debug)]
pub struct PromptResponse {
    pub env_info: AiEnvInfo,
    pub prompt_info: PromptInfo,
    /// Response content
    pub content: String,
    /// Amount of tokens used for the input prompt
    pub prompt_tokens: i64,
    /// Amount of tokens used for output completion
    pub completion_tokens: i64,
    /// Total amount of tokens used
    pub total_tokens: i64,
}

/// Trait for something that is a response of a prompt
pub trait AsPromptResponse {
    /// The response content.
    spec fn spec_content(&self) -> Seq<char>;

    /// The token counts: prompt, completion, total.
    spec fn spec_tokens(&self) -> (i64, i64, i64);

    /// Response content
    fn content(&self) -> (res: &str)
        ensures
            res@ == self.spec_content(),
    ;

    /// Amount of tokens used for the input prompt
    fn prompt_tokens(&self) -> (res: i64)
        ensures
            res == self.spec_tokens().0,
    ;

    /// Amount of tokens used for output completion
    fn completion_tokens(&self) -> (res: i64)
        ensures
            res == self.spec_tokens().1,
    ;

    /// Total amount of tokens used
    fn total_tokens(&self) -> (res: i64)
        ensures
            res == self.spec_tokens().2,
    ;
}

impl AsPromptResponse for PromptResponse {
    open spec fn spec_content(&self) -> Seq<char> {
        self.content@
    }

    open spec fn spec_tokens(&self) -> (i64, i64, i64) {
        (self.prompt_tokens, self.completion_tokens, self.total_tokens)
    }

    fn content(&self) -> (res: &str) {
        self.content.as_str()
    }

    fn prompt_tokens(&self) -> (res: i64) {
        self.prompt_tokens
    }

    fn completion_tokens(&self) -> (res: i64) {
        self.completion_tokens
    }

    fn total_tokens(&self) -> (res: i64) {
        self.total_tokens
    }
}

/// Represents a prompt to send to an ai plus its postprocessing via handler
pub trait AiPrompt {
    /// What handling a response yields.
    type PromptResult;

    /// The name of the prompt.
    spec fn spec_name(&self) -> Seq<char>;

    /// The version of the prompt.
    spec fn spec_version(&self) -> u16;

    /// Name and version together.
    fn info(&self) -> (res: PromptInfo)
        ensures
            res.name@ == self.spec_name(),
            res.version == self.spec_version(),
    {
        PromptInfo { name: self.name().to_owned(), version: self.version() }
    }

    /// Used to disambiguate different prompts. Should be unique for every use-case
    fn name(&self) -> (res: &str)
        ensures
            res@ == self.spec_name(),
    ;

    /// Version to disambiguate different versions of one prompt. Used for regenerations
    fn version(&self) -> (res: u16)
        ensures
            res == self.spec_version(),
    ;

    /// String that will be use to prime the ai
    fn primer(&self) -> Vec<AiMessage>;

    /// Handle the response from the ai
    fn handle_response(&self, r: PromptResponse) -> Self::PromptResult;
}

} // verus!
