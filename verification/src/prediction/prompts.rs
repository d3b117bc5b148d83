//! The prompts used to predict meta data of statements.

use vstd::prelude::*;

use crate::ai_prompt::api::{AiMessage, AiPrompt, AiRole, PromptResponse};
use crate::string_ext::after_first;
use crate::structs::Statement;
use crate::text::{append_str, chars_of, push_decimal, string_from_chars, trim, trim_chars};
use crate::text::decimal;

verus! {

/// What is done to the content of a response before it is stored.
#[derive(Clone, Copy, Debug, PartialEq, Eq, Structural)]
pub enum ResponseHandler {
    /// The content is kept as it is.
    Identity,
    /// The first line (a CSV header) is dropped and the rest trimmed.
    StripHeader,
}

/// The content after `handler`.
pub open spec fn spec_handled(handler: ResponseHandler, s: Seq<char>) -> Seq<char> {
    match handler {
        ResponseHandler::Identity => s,
        ResponseHandler::StripHeader => trim(
            match after_first(s, '\n') {
                Some(rest) => rest,
                None => Seq::<char>::empty(),
            },
        ),
    }
}

/// The identity handler keeps the content; the header handler drops the
/// first line, whatever it holds, and trims the rest; a content of a
/// single line leaves nothing.
pub proof fn law_response_handlers(header: Seq<char>, rest: Seq<char>)
    requires
        crate::text::count_char(header, '\n') == 0,
    ensures
        spec_handled(ResponseHandler::Identity, header + seq!['\n'] + rest) == header + seq!['\n']
            + rest,
        spec_handled(ResponseHandler::StripHeader, header + seq!['\n'] + rest) == trim(rest),
        spec_handled(ResponseHandler::StripHeader, header) == trim(Seq::<char>::empty()),
{
    crate::string_ext::law_after_first_is_rest(header, '\n', rest);
}

impl ResponseHandler {
    /// Applies the handler to a response content.
    pub fn apply(&self, s: String) -> (res: String)
        ensures
            res@ == spec_handled(*self, s@),
    {
        match self {
            ResponseHandler::Identity => s,
            ResponseHandler::StripHeader => {
                let chars = chars_of(s.as_str());
                let mut i: usize = 0;
                assert(chars@.skip(0) =~= chars@);
                while i < chars.len() && chars[i] != '\n'
                    invariant
                        i <= chars@.len(),
                        after_first(chars@, '\n') == after_first(chars@.skip(i as int), '\n'),
                    decreases chars@.len() - i,
                {
                    assert(chars@.skip(i as int).drop_first() =~= chars@.skip(i + 1));
                    i = i + 1;
                }
                let mut rest: Vec<char> = Vec::new();
                if i < chars.len() {
                    assert(chars@.skip(i as int).drop_first() =~= chars@.skip(i + 1));
                    let mut k: usize = i + 1;
                    while k < chars.len()
                        invariant
                            i + 1 <= k <= chars@.len(),
                            rest@ == chars@.subrange(i + 1, k as int),
                        decreases chars@.len() - k,
                    {
                        rest.push(chars[k]);
                        k = k + 1;
                        assert(rest@ =~= chars@.subrange(i + 1, k as int));
                    }
                    assert(rest@ =~= chars@.skip(i + 1));
                } else {
                    assert(chars@.skip(i as int) =~= Seq::<char>::empty());
                }
                let trimmed = trim_chars(&rest);
                string_from_chars(&trimmed)
            },
        }
    }
}

/// A generic prompt yielding a single result
pub struct GenericPrompt {
    pub name: String,
    pub version: u16,
    pub primer: Vec<AiMessage>,
    pub handler: ResponseHandler,
}

impl AiPrompt for GenericPrompt {
    type PromptResult = PromptResponse;

    open spec fn spec_name(&self) -> Seq<char> {
        self.name@
    }

    open spec fn spec_version(&self) -> u16 {
        self.version
    }

    fn name(&self) -> (res: &str) {
        self.name.as_str()
    }

    fn version(&self) -> (res: u16) {
        self.version
    }

    fn primer(&self) -> (res: Vec<AiMessage>)
        ensures
            res@ == self.primer@,
    {
        let mut res: Vec<AiMessage> = Vec::new();
        let mut i: usize = 0;
        while i < self.primer.len()
            invariant
                i <= self.primer@.len(),
                res@ == self.primer@.take(i as int),
            decreases self.primer@.len() - i,
        {
            let m = &self.primer[i];
            res.push(AiMessage { role: m.role, content: m.content.clone() });
            i = i + 1;
            assert(res@ =~= self.primer@.take(i as int));
        }
        assert(self.primer@.take(self.primer@.len() as int) =~= self.primer@);
        res
    }

    fn handle_response(&self, r: PromptResponse) -> (res: PromptResponse)
        ensures
            res.env_info == r.env_info,
            res.prompt_info == r.prompt_info,
            res.content@ == spec_handled(self.handler, r.content@),
            res.completion_tokens == r.completion_tokens,
            res.prompt_tokens == r.prompt_tokens,
            res.total_tokens == r.total_tokens,
    {
        PromptResponse {
            env_info: r.env_info,
            prompt_info: r.prompt_info,
            content: self.handler.apply(r.content),
            completion_tokens: r.completion_tokens,
            prompt_tokens: r.prompt_tokens,
            total_tokens: r.total_tokens,
        }
    }
}

/// `m` is a message of `role` with content `text`.
pub open spec fn message_is(m: AiMessage, role: AiRole, text: Seq<char>) -> bool {
    m.role == role && m.content@ == text
}

/// Computes the big five personality traits for a statement
pub fn bfp(s: &Statement) -> (res: GenericPrompt)
    ensures
        res.name@ == "BFP"@,
        res.version == 4,
        res.handler == ResponseHandler::Identity,
        res.primer@.len() == 8,
        message_is(
            res.primer@[0],
            AiRole::System,
            "Categorize via big five personality traits psychological test. No notes."@,
        ),
        message_is(res.primer@[1], AiRole::User, "I enjoy trying new foods."@),
        message_is(res.primer@[2], AiRole::Assistant, "openness-to-experience: medium"@),
        message_is(res.primer@[3], AiRole::User, "I like talking to people."@),
        message_is(res.primer@[4], AiRole::Assistant, "extraversion: high"@),
        message_is(
            res.primer@[5],
            AiRole::User,
            "Refugees in germany behave badly and should be sanctioned."@,
        ),
        message_is(res.primer@[6], AiRole::Assistant, "agreeableness: low"@),
        message_is(res.primer@[7], AiRole::User, s.text@),
{
    let mut primer: Vec<AiMessage> = Vec::new();
    primer.push(
        AiMessage::system("Categorize via big five personality traits psychological test. No notes."),
    );
    primer.push(AiMessage::user("I enjoy trying new foods."));
    primer.push(AiMessage::assistant("openness-to-experience: medium"));
    primer.push(AiMessage::user("I like talking to people."));
    primer.push(AiMessage::assistant("extraversion: high"));
    primer.push(AiMessage::user("Refugees in germany behave badly and should be sanctioned."));
    primer.push(AiMessage::assistant("agreeableness: low"));
    // the actual prediction
    primer.push(AiMessage::user(s.text.as_str()));
    GenericPrompt {
        name: "BFP".to_owned(),
        version: 4,
        handler: ResponseHandler::Identity,
        primer,
    }
}

/// Tries to determine the category that a statement falls into
pub fn statement_category(s: &Statement) -> (res: GenericPrompt)
    ensures
        res.name@ == "statement_category"@,
        res.version == 3,
        res.handler == ResponseHandler::Identity,
        res.primer@.len() == 6,
        message_is(
            res.primer@[0],
            AiRole::System,
            "Determine if a statement is political or personal."@,
        ),
        message_is(res.primer@[1], AiRole::User, "German parliament is too big."@),
        message_is(res.primer@[2], AiRole::Assistant, "political"@),
        message_is(res.primer@[3], AiRole::User, "Social media is bad for mental health."@),
        message_is(res.primer@[4], AiRole::Assistant, "personal"@),
        message_is(res.primer@[5], AiRole::User, s.text@),
{
    let mut primer: Vec<AiMessage> = Vec::new();
    primer.push(AiMessage::system("Determine if a statement is political or personal."));
    primer.push(AiMessage::user("German parliament is too big."));
    primer.push(AiMessage::assistant("political"));
    primer.push(AiMessage::user("Social media is bad for mental health."));
    primer.push(AiMessage::assistant("personal"));
    // the actual prediction
    primer.push(AiMessage::user(s.text.as_str()));
    GenericPrompt {
        name: "statement_category".to_owned(),
        version: 3,
        handler: ResponseHandler::Identity,
        primer,
    }
}

/// Tries to determine a statements ideology
pub fn statement_ideology(s: &Statement) -> (res: GenericPrompt)
    ensures
        res.name@ == "statement_ideology"@,
        res.version == 3,
        res.handler == ResponseHandler::Identity,
        res.primer@.len() == 6,
        message_is(
            res.primer@[0],
            AiRole::System,
            "Determine a statements ideology in single words."@,
        ),
        message_is(res.primer@[1], AiRole::User, "More money must be invested."@),
        message_is(res.primer@[2], AiRole::Assistant, "capitalist"@),
        message_is(res.primer@[3], AiRole::User, "Nature must be protected on a global scale."@),
        message_is(res.primer@[4], AiRole::Assistant, "environmentalist,globalist"@),
        message_is(res.primer@[5], AiRole::User, s.text@),
{
    let mut primer: Vec<AiMessage> = Vec::new();
    primer.push(AiMessage::system("Determine a statements ideology in single words."));
    primer.push(AiMessage::user("More money must be invested."));
    primer.push(AiMessage::assistant("capitalist"));
    primer.push(AiMessage::user("Nature must be protected on a global scale."));
    primer.push(AiMessage::assistant("environmentalist,globalist"));
    // the actual prediction
    primer.push(AiMessage::user(s.text.as_str()));
    GenericPrompt {
        name: "statement_ideology".to_owned(),
        version: 3,
        handler: ResponseHandler::Identity,
        primer,
    }
}

/// Contains various meta information about a statement
pub enum StatementMeta {
    Potitics { tags: Vec<String>, ideologies: Vec<String> },
    Personal { tags: Vec<String>, bfp_traits: Vec<String> },
}

/// How strongly a value applies.
#[derive(Clone, Copy, Debug, PartialEq, Eq, Structural)]
pub enum Score {
    Weak,
    Strong,
}

/// A value with an optional score
pub struct ScoredValue {
    pub value: String,
    pub score: Score,
}

/// The statements as the multi statement prompt lists them: one line for
/// each, holding its id, a colon and a space, and its text.
pub open spec fn statements_listing(stmts: Seq<Statement>) -> Seq<char>
    decreases stmts.len(),
{
    if stmts.len() == 0 {
        Seq::<char>::empty()
    } else {
        statements_listing(stmts.drop_last()) + decimal(stmts.last().id as int) + ": "@
            + stmts.last().text@ + seq!['\n']
    }
}

/// The listing holds one line per statement, in order: a single statement
/// is its id, `": "`, its text and a line break, and the listing of
/// statements one after the other is their listings one after the other.
pub proof fn law_statements_listing_lines(a: Seq<Statement>, b: Seq<Statement>, st: Statement)
    ensures
        statements_listing(seq![st]) == decimal(st.id as int) + ": "@ + st.text@ + seq!['\n'],
        statements_listing(a + b) == statements_listing(a) + statements_listing(b),
    decreases b.len(),
{
    assert(seq![st].drop_last() =~= Seq::<Statement>::empty());
    assert(seq![st].last() == st);
    assert(statements_listing(Seq::<Statement>::empty()) =~= Seq::<char>::empty());
    assert(statements_listing(seq![st]) =~= decimal(st.id as int) + ": "@ + st.text@ + seq![
        '\n',
    ]);
    if b.len() == 0 {
        assert(a + b =~= a);
        assert(statements_listing(a + b) =~= statements_listing(a) + statements_listing(b));
    } else {
        law_statements_listing_lines(a, b.drop_last(), st);
        assert((a + b).drop_last() =~= a + b.drop_last());
        assert((a + b).last() == b.last());
        assert(statements_listing(a + b) =~= statements_listing(a) + statements_listing(b));
    }
}

/// The system message of the multi statement prompt.
pub const MULTI_STATEMENT_SYSTEM: &'static str = "
You will be given multiple statements, each starting on their own line,
and your task is to determine whether the statement falls into the category
of politics or personal statements. In the case of it being a political category,
give which political ideologies (e.g., liberalism, conservatism, socialism)
each quote aligns with the most.
In the case of it being a personal category, give the big five personality traits instead.

In addition, also output up to three topic tags. The output should be a csv table.
All cells should be followed by a strength score (w=weak, s=strong) after a \":\" delimiter.
";

/// The example statements of the multi statement prompt.
pub const MULTI_STATEMENT_EXAMPLE: &'static str = "
1. The global economy is at risk of recession due to the trade war and uncertainty it creates.
2. In clubs kann man hervorragend neue Freunde kennenlernen
";

/// The example answer of the multi statement prompt.
pub const MULTI_STATEMENT_EXAMPLE_ANSWER: &'static str = "
num|category|label1|label2|label3|tag1|tag2|tag3
1|politics|neoliberalism:s|conservatism:w|socialism:w|global economy:s|trade war:s|uncertainty:s
2|personal|extraversion:s|openness:w|agreeableness:s|clubs:s|friendship:s|socializing:w
";

/// Predicts meta data of several statements with one prompt.
pub struct MultiStatementPredictorV1 {}

impl MultiStatementPredictorV1 {
    /// Given multiple statements, predict: category (political / personal),
    /// political ideology or bfp traits and tags
    ///
    /// The last message lists the statements one per line, each line ending
    /// with a line break, as the system message announces ("each starting on
    /// their own line").
    pub fn prompt(&self, stmts: &[Statement]) -> (res: GenericPrompt)
        ensures
            res.name@ == "multi_statement_predictor"@,
            res.version == 7,
            res.handler == ResponseHandler::StripHeader,
            res.primer@.len() == 4,
            message_is(res.primer@[0], AiRole::System, MULTI_STATEMENT_SYSTEM@),
            message_is(res.primer@[1], AiRole::User, MULTI_STATEMENT_EXAMPLE@),
            message_is(res.primer@[2], AiRole::Assistant, MULTI_STATEMENT_EXAMPLE_ANSWER@),
            message_is(res.primer@[3], AiRole::User, statements_listing(stmts@)),
    {
        let mut listing: Vec<char> = Vec::new();
        let mut i: usize = 0;
        while i < stmts.len()
            invariant
                i <= stmts@.len(),
                listing@ == statements_listing(stmts@.take(i as int)),
            decreases stmts@.len() - i,
        {
            assert(stmts@.take(i + 1).drop_last() =~= stmts@.take(i as int));
            push_decimal(&mut listing, stmts[i].id);
            append_str(&mut listing, ": ");
            append_str(&mut listing, stmts[i].text.as_str());
            listing.push('\n');
            i = i + 1;
        }
        assert(stmts@.take(stmts@.len() as int) =~= stmts@);
        let listing_text = string_from_chars(&listing);
        let mut primer: Vec<AiMessage> = Vec::new();
        primer.push(AiMessage::system(MULTI_STATEMENT_SYSTEM));
        primer.push(AiMessage::user(MULTI_STATEMENT_EXAMPLE));
        primer.push(AiMessage::assistant(MULTI_STATEMENT_EXAMPLE_ANSWER));
        primer.push(AiMessage::user(listing_text.as_str()));
        GenericPrompt {
            name: "multi_statement_predictor".to_owned(),
            version: 7,
            // strips the csv header from the result
            handler: ResponseHandler::StripHeader,
            primer,
        }
    }
}

} // verus!
