//! The decisions of the prediction runner. The runner itself, which sleeps,
//! queries the database and calls the model, lives with the application and
//! follows the transitions given here.

use rand::Rng;
use vstd::prelude::*;

use crate::datas::apikey::ApiKey;
use crate::opts::PredictionArgs;
use crate::datas::statement::{FlagCategoryContainer, StatementFlag, StatementFlagState};

verus! {

/// Why running a prompt did not give a result.
#[derive(Debug)]
pub enum PromptRunnerError {
    /// The prompt was flagged by moderation and not sent.
    CheckFailed,
    /// Some other error, with its message.
    Anyhow(String),
}

/// The state given to statements whose prompt failed moderation: a single
/// statement is flagged; in a batch each is only suspected, to be checked
/// on its own later.
pub open spec fn spec_failing_flag_state(num_stmts: usize) -> StatementFlagState {
    if num_stmts == 1 {
        StatementFlagState::Flagged
    } else {
        StatementFlagState::MaybeFlagged
    }
}

/// Only a statement checked on its own is flagged outright; every statement
/// of a larger (or empty) batch is only suspected.
pub proof fn law_failing_flag_state_by_batch_size(num_stmts: usize)
    ensures
        spec_failing_flag_state(num_stmts) == StatementFlagState::Flagged <==> num_stmts == 1,
        spec_failing_flag_state(num_stmts) == StatementFlagState::MaybeFlagged <==> num_stmts != 1,
{
}

/// The state for statements of a batch of `num_stmts` that failed moderation.
pub fn failing_flag_state(num_stmts: usize) -> (res: StatementFlagState)
    ensures
        res == spec_failing_flag_state(num_stmts),
        num_stmts == 1 ==> res == StatementFlagState::Flagged,
        num_stmts != 1 ==> res == StatementFlagState::MaybeFlagged,
{
    if num_stmts == 1 {
        StatementFlagState::Flagged
    } else {
        StatementFlagState::MaybeFlagged
    }
}

/// What is written for one statement after its batch failed moderation.
#[derive(Debug)]
pub enum FlagWrite {
    /// The existing flag, with its new state.
    Update(StatementFlag),
    /// A new flag for a statement that had none.
    Create { statement_id: i64, state: StatementFlagState, categories: FlagCategoryContainer },
}

/// The write for `statement_id` in a batch of `num_stmts` that failed
/// moderation: an existing flag keeps everything but its state; otherwise
/// a flag without categories is created.
pub fn flag_write_after_failed_check(
    existing: Option<StatementFlag>,
    statement_id: i64,
    num_stmts: usize,
) -> (res: FlagWrite)
    ensures
        match (existing, res) {
            (Some(old_flag), FlagWrite::Update(new_flag)) => {
                &&& new_flag.statement_id == old_flag.statement_id
                &&& new_flag.categories == old_flag.categories
                &&& new_flag.created == old_flag.created
                &&& new_flag.state == spec_failing_flag_state(num_stmts)
            },
            (None, FlagWrite::Create { statement_id: id, state, categories }) => {
                &&& id == statement_id
                &&& state == spec_failing_flag_state(num_stmts)
                &&& categories == FlagCategoryContainer::Empty
            },
            _ => false,
        },
{
    let state = failing_flag_state(num_stmts);
    match existing {
        Some(flag) => {
            let mut new_flag = flag;
            new_flag.state = state;
            FlagWrite::Update(new_flag)
        },
        None => FlagWrite::Create {
            statement_id,
            state,
            categories: FlagCategoryContainer::Empty,
        },
    }
}

/// What the moderation check of a prompt found.
#[derive(Clone, Copy, Debug, PartialEq, Eq, Structural)]
pub enum CheckOutcome {
    /// The prompt may be sent.
    Passed,
    /// Moderation flagged the prompt.
    Flagged,
    /// The check itself failed.
    Failed,
}

/// How sending a prompt ended.
#[derive(Clone, Copy, Debug, PartialEq, Eq, Structural)]
pub enum PromptOutcome {
    /// The model answered and the answer was handled.
    Succeeded,
    /// Anything went wrong.
    Failed,
}

/// Where the runner is within one round.
#[derive(Clone, Copy, Debug, PartialEq, Eq, Structural)]
pub enum RunnerPhase {
    /// Waiting, then selecting the next statements.
    Select,
    /// Work was found; an API key is to be picked.
    PickKey { prompt: bool, embed: bool },
    /// The prompt is being checked by moderation.
    Check { embed: bool },
    /// The prompt passed the check and is being sent.
    Prompt { embed: bool },
    /// The outcome of the prompt is being recorded.
    AfterPrompt { embed: bool },
    /// Embeddings are being computed and stored.
    Embed,
}

/// What the application reports back to the runner.
#[derive(Clone, Copy, Debug, PartialEq, Eq, Structural)]
pub enum RunnerEvent {
    /// The next prompt (if any) and embedding batch were selected.
    Selected { prompt_ready: bool, embed_batch: usize },
    /// An API key was picked and set.
    KeyPicked,
    /// The moderation check finished.
    CheckDone(CheckOutcome),
    /// The prompt was sent and its answer handled, or sending failed.
    PromptDone(PromptOutcome),
    /// The recording of the prompt outcome finished.
    Recorded,
    /// The embeddings were computed and stored.
    EmbeddingsDone,
}

/// What the application is to do next.
#[derive(Clone, Copy, Debug, PartialEq, Eq, Structural)]
pub enum RunnerAction {
    /// Sleep a second, then select the next statements.
    SleepThenSelect,
    /// Pick an API key at random and set it.
    PickKey,
    /// Check the prompt with the moderation endpoint.
    CheckPrompt,
    /// Send the prompt to the model.
    SendPrompt,
    /// Store the predictions of the prompt.
    StorePredictions,
    /// Flag the statements of the prompt.
    FlagStatements,
    /// Log that the prompt failed.
    ReportFailure,
    /// Compute and store embeddings of the selected statements.
    RunEmbeddings,
}

/// The runner's transition function.
pub open spec fn spec_runner_step(phase: RunnerPhase, event: RunnerEvent) -> (
    RunnerPhase,
    RunnerAction,
) {
    match (phase, event) {
        (RunnerPhase::Select, RunnerEvent::Selected { prompt_ready, embed_batch }) => {
            if !prompt_ready && embed_batch == 0 {
                (RunnerPhase::Select, RunnerAction::SleepThenSelect)
            } else {
                (
                    RunnerPhase::PickKey { prompt: prompt_ready, embed: embed_batch > 0 },
                    RunnerAction::PickKey,
                )
            }
        },
        (RunnerPhase::PickKey { prompt, embed }, RunnerEvent::KeyPicked) => {
            if prompt {
                (RunnerPhase::Check { embed }, RunnerAction::CheckPrompt)
            } else {
                (RunnerPhase::Embed, RunnerAction::RunEmbeddings)
            }
        },
        (RunnerPhase::Check { embed }, RunnerEvent::CheckDone(outcome)) => match outcome {
            CheckOutcome::Passed => (RunnerPhase::Prompt { embed }, RunnerAction::SendPrompt),
            CheckOutcome::Flagged => (
                RunnerPhase::AfterPrompt { embed },
                RunnerAction::FlagStatements,
            ),
            CheckOutcome::Failed => (RunnerPhase::AfterPrompt { embed }, RunnerAction::ReportFailure),
        },
        (RunnerPhase::Prompt { embed }, RunnerEvent::PromptDone(outcome)) => (
            RunnerPhase::AfterPrompt { embed },
            match outcome {
                PromptOutcome::Succeeded => RunnerAction::StorePredictions,
                PromptOutcome::Failed => RunnerAction::ReportFailure,
            },
        ),
        (RunnerPhase::AfterPrompt { embed }, RunnerEvent::Recorded) => {
            if embed {
                (RunnerPhase::Embed, RunnerAction::RunEmbeddings)
            } else {
                (RunnerPhase::Select, RunnerAction::SleepThenSelect)
            }
        },
        (RunnerPhase::Embed, RunnerEvent::EmbeddingsDone) => (
            RunnerPhase::Select,
            RunnerAction::SleepThenSelect,
        ),
        _ => (RunnerPhase::Select, RunnerAction::SleepThenSelect),
    }
}

/// The next phase and action of the runner after `event` in `phase`.
/// An event that does not fit the phase starts a new round.
pub fn runner_step(phase: RunnerPhase, event: RunnerEvent) -> (res: (RunnerPhase, RunnerAction))
    ensures
        res == spec_runner_step(phase, event),
{
    match (phase, event) {
        (RunnerPhase::Select, RunnerEvent::Selected { prompt_ready, embed_batch }) => {
            if !prompt_ready && embed_batch == 0 {
                (RunnerPhase::Select, RunnerAction::SleepThenSelect)
            } else {
                (
                    RunnerPhase::PickKey { prompt: prompt_ready, embed: embed_batch > 0 },
                    RunnerAction::PickKey,
                )
            }
        },
        (RunnerPhase::PickKey { prompt, embed }, RunnerEvent::KeyPicked) => {
            if prompt {
                (RunnerPhase::Check { embed }, RunnerAction::CheckPrompt)
            } else {
                (RunnerPhase::Embed, RunnerAction::RunEmbeddings)
            }
        },
        (RunnerPhase::Check { embed }, RunnerEvent::CheckDone(outcome)) => match outcome {
            CheckOutcome::Passed => (RunnerPhase::Prompt { embed }, RunnerAction::SendPrompt),
            CheckOutcome::Flagged => (
                RunnerPhase::AfterPrompt { embed },
                RunnerAction::FlagStatements,
            ),
            CheckOutcome::Failed => (RunnerPhase::AfterPrompt { embed }, RunnerAction::ReportFailure),
        },
        (RunnerPhase::Prompt { embed }, RunnerEvent::PromptDone(outcome)) => (
            RunnerPhase::AfterPrompt { embed },
            match outcome {
                PromptOutcome::Succeeded => RunnerAction::StorePredictions,
                PromptOutcome::Failed => RunnerAction::ReportFailure,
            },
        ),
        (RunnerPhase::AfterPrompt { embed }, RunnerEvent::Recorded) => {
            if embed {
                (RunnerPhase::Embed, RunnerAction::RunEmbeddings)
            } else {
                (RunnerPhase::Select, RunnerAction::SleepThenSelect)
            }
        },
        (RunnerPhase::Embed, RunnerEvent::EmbeddingsDone) => (
            RunnerPhase::Select,
            RunnerAction::SleepThenSelect,
        ),
        _ => (RunnerPhase::Select, RunnerAction::SleepThenSelect),
    }
}

/// A round without work picks no key and calls no model: it only waits.
pub proof fn law_idle_round_only_waits(embed_batch: usize)
    ensures
        embed_batch == 0 ==> spec_runner_step(
            RunnerPhase::Select,
            RunnerEvent::Selected { prompt_ready: false, embed_batch },
        ) == (RunnerPhase::Select, RunnerAction::SleepThenSelect),
{
}

/// A prompt is sent only right after it passed the moderation check; a
/// flagged prompt leads to flagging its statements, and predictions are
/// stored only for a prompt that was sent and answered.
pub proof fn law_check_decides_sending(phase: RunnerPhase, event: RunnerEvent)
    ensures
        spec_runner_step(phase, event).1 == RunnerAction::SendPrompt <==> (phase is Check && event
            == RunnerEvent::CheckDone(CheckOutcome::Passed)),
        spec_runner_step(phase, event).1 == RunnerAction::FlagStatements <==> (phase is Check
            && event == RunnerEvent::CheckDone(CheckOutcome::Flagged)),
        spec_runner_step(phase, event).1 == RunnerAction::StorePredictions <==> (phase is Prompt
            && event == RunnerEvent::PromptDone(PromptOutcome::Succeeded)),
{
}

/// Each round with work picks a key first; a prompt is checked, then sent
/// if the check passed; the embeddings selected run after the prompt's
/// outcome has been recorded.
pub proof fn law_round_order(
    prompt_ready: bool,
    embed_batch: usize,
    check: CheckOutcome,
    outcome: PromptOutcome,
)
    requires
        prompt_ready || embed_batch > 0,
    ensures
        ({
            let (p1, a1) = spec_runner_step(
                RunnerPhase::Select,
                RunnerEvent::Selected { prompt_ready, embed_batch },
            );
            let (p2, a2) = spec_runner_step(p1, RunnerEvent::KeyPicked);
            let (p3, a3) = spec_runner_step(p2, RunnerEvent::CheckDone(check));
            &&& a1 == RunnerAction::PickKey
            &&& prompt_ready ==> a2 == RunnerAction::CheckPrompt
            &&& !prompt_ready ==> a2 == RunnerAction::RunEmbeddings
            &&& prompt_ready ==> (a3 == RunnerAction::SendPrompt <==> check == CheckOutcome::Passed)
            &&& prompt_ready && check != CheckOutcome::Passed ==> {
                let (p4, a4) = spec_runner_step(p3, RunnerEvent::Recorded);
                &&& embed_batch > 0 ==> a4 == RunnerAction::RunEmbeddings
                &&& embed_batch == 0 ==> a4 == RunnerAction::SleepThenSelect
            }
            &&& prompt_ready && check == CheckOutcome::Passed ==> {
                let (p4, a4) = spec_runner_step(p3, RunnerEvent::PromptDone(outcome));
                let (p5, a5) = spec_runner_step(p4, RunnerEvent::Recorded);
                &&& embed_batch > 0 ==> a5 == RunnerAction::RunEmbeddings
                &&& embed_batch == 0 ==> a5 == RunnerAction::SleepThenSelect
            }
        }),
{
}

/// Copies an API key.
fn copy_api_key(k: &ApiKey) -> (res: ApiKey)
    ensures
        res == *k,
{
    ApiKey {
        id: k.id,
        hash: k.hash.clone(),
        note: match &k.note {
            Some(n) => Some(n.clone()),
            None => None,
        },
    }
}

/// A uniformly random index below `len`, from `rand::thread_rng()` and
/// `Rng::gen_range(0..len)` (rand 0.8), which panics on an empty range.
#[verifier::external_body]
fn random_index(len: usize) -> (res: usize)
    requires
        len > 0,
    ensures
        res < len,
{
    rand::thread_rng().gen_range(0..len)
}

/// The entry for `raw` among `entries`, the last one if several.
pub open spec fn lookup_key(entries: Seq<(String, ApiKey)>, raw: Seq<char>) -> Option<ApiKey>
    decreases entries.len(),
{
    if entries.len() == 0 {
        None
    } else if entries.last().0@ == raw {
        Some(entries.last().1)
    } else {
        lookup_key(entries.drop_last(), raw)
    }
}

/// With distinct raw keys, the entry at `i` is what its raw key finds.
pub proof fn lemma_lookup_unique_at(entries: Seq<(String, ApiKey)>, i: int)
    requires
        0 <= i < entries.len(),
        forall|a: int, b: int| 0 <= a < b < entries.len() ==> entries[a].0@ != entries[b].0@,
    ensures
        lookup_key(entries, entries[i].0@) == Some(entries[i].1),
    decreases entries.len(),
{
    if i < entries.len() - 1 {
        let init = entries.drop_last();
        assert(init[i] == entries[i]);
        lemma_lookup_unique_at(init, i);
    }
}

/// A raw key that no entry has finds nothing.
pub proof fn lemma_lookup_absent(entries: Seq<(String, ApiKey)>, raw: Seq<char>)
    requires
        forall|j: int| 0 <= j < entries.len() ==> entries[j].0@ != raw,
    ensures
        lookup_key(entries, raw) is None,
    decreases entries.len(),
{
    if entries.len() > 0 {
        let init = entries.drop_last();
        assert forall|j: int| 0 <= j < init.len() implies init[j].0@ != raw by {
            assert(init[j] == entries[j]);
        }
        lemma_lookup_absent(init, raw);
    }
}

/// Replacing the entry of one raw key leaves the others' lookups alone.
pub proof fn lemma_lookup_update_other(
    entries: Seq<(String, ApiKey)>,
    i: int,
    e: (String, ApiKey),
    other: Seq<char>,
)
    requires
        0 <= i < entries.len(),
        entries[i].0@ == e.0@,
        other != e.0@,
    ensures
        lookup_key(entries.update(i, e), other) == lookup_key(entries, other),
    decreases entries.len(),
{
    if i < entries.len() - 1 {
        lemma_lookup_update_other(entries.drop_last(), i, e, other);
        assert(entries.update(i, e).drop_last() =~= entries.drop_last().update(i, e));
    } else {
        assert(entries.update(i, e).drop_last() =~= entries.drop_last());
    }
}

/// Why no key could be selected.
#[derive(Debug)]
pub enum SelectorError {
    /// There are no keys.
    NoKeys,
}

/// Used to select next key to use for requests
///
/// The raw keys and their stored records are kept as pairs in a vector
/// whose raw keys are distinct (the type invariant `unique`); `key_for` is
/// the map this stands for. A vector is used because the lookups of vstd's
/// `HashMap` are specified only for key types whose hashing vstd models,
/// which does not include `String`.
pub struct ApiKeySelector {
    keys: Vec<(String, ApiKey)>,
}

impl ApiKeySelector {
    /// No raw key occurs twice.
    #[verifier::type_invariant]
    spec fn unique(&self) -> bool {
        forall|i: int, j: int|
            0 <= i < j < self.keys@.len() ==> self.keys@[i].0@ != self.keys@[j].0@
    }

    /// The stored key for each raw key.
    pub closed spec fn key_for(&self, raw: Seq<char>) -> Option<ApiKey> {
        lookup_key(self.keys@, raw)
    }

    /// The number of keys.
    pub closed spec fn spec_len(&self) -> nat {
        self.keys@.len()
    }

    /// A selector without keys.
    pub fn new() -> (res: Self)
        ensures
            res.spec_len() == 0,
            forall|raw: Seq<char>| #[trigger] res.key_for(raw) is None,
    {
        ApiKeySelector { keys: Vec::new() }
    }

    /// The number of keys.
    pub fn len(&self) -> (res: usize)
        ensures
            res == self.spec_len(),
    {
        self.keys.len()
    }

    /// Records `key` for `raw`, replacing a key recorded before.
    pub fn insert(&mut self, raw: String, key: ApiKey)
        ensures
            final(self).key_for(raw@) == Some(key),
            forall|other: Seq<char>|
                other != raw@ ==> #[trigger] final(self).key_for(other) == old(self).key_for(other),
            old(self).key_for(raw@) is None ==> final(self).spec_len() == old(self).spec_len() + 1,
            old(self).key_for(raw@) is Some ==> final(self).spec_len() == old(self).spec_len(),
    {
        proof {
            use_type_invariant(&*self);
        }
        let ghost before = self.keys@;
        let ghost entry = (raw, key);
        assert(before == old(self).keys@);
        let mut i: usize = 0;
        while i < self.keys.len()
            invariant
                i <= self.keys@.len(),
                self.keys@ == before,
                before == old(self).keys@,
                entry == (raw, key),
                forall|a: int, b: int| 0 <= a < b < before.len() ==> before[a].0@ != before[b].0@,
                forall|j: int| 0 <= j < i ==> before[j].0@ != raw@,
            decreases self.keys@.len() - i,
        {
            if crate::text::str_eq(self.keys[i].0.as_str(), raw.as_str()) {
                proof {
                    lemma_lookup_unique_at(before, i as int);
                    assert forall|other: Seq<char>| other != raw@ implies #[trigger] lookup_key(
                        before.update(i as int, entry),
                        other,
                    ) == lookup_key(before, other) by {
                        lemma_lookup_update_other(before, i as int, entry, other);
                    }
                    let after = before.update(i as int, entry);
                    assert forall|a: int, b: int| 0 <= a < b < after.len() implies after[a].0@
                        != after[b].0@ by {
                        if a != i && b != i {
                            assert(after[a] == before[a] && after[b] == before[b]);
                        }
                    }
                    lemma_lookup_unique_at(after, i as int);
                }
                let mut keys: Vec<(String, ApiKey)> = Vec::new();
                std::mem::swap(&mut keys, &mut self.keys);
                keys.set(i, (raw, key));
                assert(keys@ == before.update(i as int, entry));
                self.keys = keys;
                return;
            }
            i = i + 1;
        }
        proof {
            lemma_lookup_absent(before, raw@);
        }
        let mut keys: Vec<(String, ApiKey)> = Vec::new();
        std::mem::swap(&mut keys, &mut self.keys);
        keys.push((raw, key));
        assert(keys@ == before.push(entry));
        assert(keys@.drop_last() =~= before);
        self.keys = keys;
    }

    /// Yield next key to use: a key chosen at random, with its raw form.
    pub fn next(&self) -> (res: Result<(String, ApiKey), SelectorError>)
        ensures
            match res {
                Ok((raw, key)) => self.key_for(raw@) == Some(key),
                Err(SelectorError::NoKeys) => self.spec_len() == 0,
            },
            res is Err <==> self.spec_len() == 0,
    {
        proof {
            use_type_invariant(self);
        }
        if self.keys.len() == 0 {
            return Err(SelectorError::NoKeys);
        }
        let i = random_index(self.keys.len());
        proof {
            lemma_lookup_unique_at(self.keys@, i as int);
        }
        Ok((self.keys[i].0.clone(), copy_api_key(&self.keys[i].1)))
    }
}

/// What is stored for one computed embedding, besides its values.
#[derive(Clone, Copy, Debug, PartialEq, Eq, Structural)]
pub struct EmbeddingRecord {
    pub statement_id: i64,
    pub prompt_tokens: i64,
    pub api_key_id: i64,
}

/// The records for `count` embeddings computed for the statements
/// `statement_ids`, in order: the i-th embedding belongs to the i-th
/// statement; each carries the tokens of the whole request.
pub fn embedding_records(
    statement_ids: &Vec<i64>,
    count: usize,
    total_tokens: u32,
    api_key_id: i64,
) -> (res: Vec<EmbeddingRecord>)
    requires
        count <= statement_ids@.len(),
    ensures
        res@.len() == count,
        forall|i: int|
            0 <= i < count ==> #[trigger] res@[i] == (EmbeddingRecord {
                statement_id: statement_ids@[i],
                prompt_tokens: total_tokens as i64,
                api_key_id,
            }),
{
    let mut res: Vec<EmbeddingRecord> = Vec::new();
    let mut i: usize = 0;
    while i < count
        invariant
            i <= count <= statement_ids@.len(),
            res@.len() == i,
            forall|j: int|
                0 <= j < i ==> #[trigger] res@[j] == (EmbeddingRecord {
                    statement_id: statement_ids@[j],
                    prompt_tokens: total_tokens as i64,
                    api_key_id,
                }),
        decreases count - i,
    {
        res.push(
            EmbeddingRecord {
                statement_id: statement_ids[i],
                prompt_tokens: total_tokens as i64,
                api_key_id,
            },
        );
        i = i + 1;
    }
    res
}

impl ApiKeySelector {
    /// The raw keys to load: the list of keys, then the single key, if any.
    pub fn raw_keys(opts: &PredictionArgs) -> (res: Vec<String>)
        ensures
            res@.len() == opts.openai_api_keys@.len() + if opts.openai_api_key is Some {
                1int
            } else {
                0int
            },
            forall|i: int|
                0 <= i < opts.openai_api_keys@.len() ==> #[trigger] res@[i]@
                    == opts.openai_api_keys@[i]@,
            opts.openai_api_key matches Some(k) ==> res@.last()@ == k@,
    {
        let mut res: Vec<String> = Vec::new();
        let mut i: usize = 0;
        while i < opts.openai_api_keys.len()
            invariant
                i <= opts.openai_api_keys@.len(),
                res@.len() == i,
                forall|j: int|
                    0 <= j < i ==> #[trigger] res@[j]@ == opts.openai_api_keys@[j]@,
            decreases opts.openai_api_keys@.len() - i,
        {
            res.push(opts.openai_api_keys[i].clone());
            i = i + 1;
        }
        match &opts.openai_api_key {
            Some(k) => res.push(k.clone()),
            None => {},
        }
        res
    }
}

} // verus!
