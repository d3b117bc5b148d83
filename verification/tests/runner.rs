use propolis::datas::apikey::ApiKey;
use propolis::datas::statement::{FlagCategory, FlagCategoryContainer, StatementFlag, StatementFlagState};
use propolis::opts::PredictionArgs;
use propolis::prediction::runner::{
    embedding_records, failing_flag_state, flag_write_after_failed_check, runner_step,
    ApiKeySelector, CheckOutcome, EmbeddingRecord, FlagWrite, PromptOutcome, RunnerAction, RunnerEvent,
    RunnerPhase, SelectorError,
};

fn key(id: i64, hash: &str) -> ApiKey {
    ApiKey { id, hash: hash.to_string(), note: None }
}

#[test]
fn failing_single_statement_is_flagged() {
    assert_eq!(failing_flag_state(1), StatementFlagState::Flagged);
    assert_eq!(failing_flag_state(2), StatementFlagState::MaybeFlagged);
    assert_eq!(failing_flag_state(10), StatementFlagState::MaybeFlagged);
    assert_eq!(failing_flag_state(0), StatementFlagState::MaybeFlagged);
}

#[test]
fn failed_check_updates_existing_flag() {
    let existing = StatementFlag {
        statement_id: 5,
        state: StatementFlagState::Clear,
        categories: FlagCategoryContainer::Vec(vec![FlagCategory { name: "hate".into(), value: true }]),
        created: 1234,
    };
    match flag_write_after_failed_check(Some(existing), 5, 1) {
        FlagWrite::Update(f) => {
            assert_eq!(f.statement_id, 5);
            assert_eq!(f.state, StatementFlagState::Flagged);
            assert_eq!(f.created, 1234);
            assert_eq!(
                f.categories,
                FlagCategoryContainer::Vec(vec![FlagCategory { name: "hate".into(), value: true }])
            );
        }
        FlagWrite::Create { .. } => panic!("expected an update"),
    }
}

#[test]
fn failed_check_creates_missing_flag() {
    match flag_write_after_failed_check(None, 9, 3) {
        FlagWrite::Create { statement_id, state, categories } => {
            assert_eq!(statement_id, 9);
            assert_eq!(state, StatementFlagState::MaybeFlagged);
            assert_eq!(categories, FlagCategoryContainer::Empty);
        }
        FlagWrite::Update(_) => panic!("expected a new flag"),
    }
}

#[test]
fn idle_round_sleeps() {
    let (p, a) = runner_step(
        RunnerPhase::Select,
        RunnerEvent::Selected { prompt_ready: false, embed_batch: 0 },
    );
    assert_eq!(p, RunnerPhase::Select);
    assert_eq!(a, RunnerAction::SleepThenSelect);
}

#[test]
fn full_round_prompt_then_embeddings() {
    let (p, a) = runner_step(
        RunnerPhase::Select,
        RunnerEvent::Selected { prompt_ready: true, embed_batch: 4 },
    );
    assert_eq!(a, RunnerAction::PickKey);
    let (p, a) = runner_step(p, RunnerEvent::KeyPicked);
    assert_eq!(a, RunnerAction::CheckPrompt);
    let (p, a) = runner_step(p, RunnerEvent::CheckDone(CheckOutcome::Passed));
    assert_eq!(a, RunnerAction::SendPrompt);
    let (p, a) = runner_step(p, RunnerEvent::PromptDone(PromptOutcome::Succeeded));
    assert_eq!(a, RunnerAction::StorePredictions);
    let (p, a) = runner_step(p, RunnerEvent::Recorded);
    assert_eq!(a, RunnerAction::RunEmbeddings);
    let (p, a) = runner_step(p, RunnerEvent::EmbeddingsDone);
    assert_eq!(a, RunnerAction::SleepThenSelect);
    assert_eq!(p, RunnerPhase::Select);
}

#[test]
fn flagged_prompt_flags_statements() {
    let (p, _) = runner_step(
        RunnerPhase::Select,
        RunnerEvent::Selected { prompt_ready: true, embed_batch: 0 },
    );
    let (p, _) = runner_step(p, RunnerEvent::KeyPicked);
    let (p, a) = runner_step(p, RunnerEvent::CheckDone(CheckOutcome::Flagged));
    assert_eq!(a, RunnerAction::FlagStatements);
    let (p, a) = runner_step(p, RunnerEvent::Recorded);
    assert_eq!(a, RunnerAction::SleepThenSelect);
    assert_eq!(p, RunnerPhase::Select);
}

#[test]
fn failed_prompt_is_reported() {
    let (p, a) = runner_step(
        RunnerPhase::Prompt { embed: false },
        RunnerEvent::PromptDone(PromptOutcome::Failed),
    );
    assert_eq!(a, RunnerAction::ReportFailure);
    assert_eq!(p, RunnerPhase::AfterPrompt { embed: false });
}

#[test]
fn failed_check_is_reported_and_prompt_not_sent() {
    let (p, a) = runner_step(
        RunnerPhase::Check { embed: true },
        RunnerEvent::CheckDone(CheckOutcome::Failed),
    );
    assert_eq!(a, RunnerAction::ReportFailure);
    assert_eq!(p, RunnerPhase::AfterPrompt { embed: true });
    let (_, a) = runner_step(p, RunnerEvent::Recorded);
    assert_eq!(a, RunnerAction::RunEmbeddings);
}

#[test]
fn embeddings_only_round() {
    let (p, a) = runner_step(
        RunnerPhase::Select,
        RunnerEvent::Selected { prompt_ready: false, embed_batch: 2 },
    );
    assert_eq!(a, RunnerAction::PickKey);
    let (p, a) = runner_step(p, RunnerEvent::KeyPicked);
    assert_eq!(a, RunnerAction::RunEmbeddings);
    assert_eq!(p, RunnerPhase::Embed);
}

#[test]
fn unexpected_event_restarts_round() {
    let (p, a) = runner_step(RunnerPhase::Embed, RunnerEvent::KeyPicked);
    assert_eq!(p, RunnerPhase::Select);
    assert_eq!(a, RunnerAction::SleepThenSelect);
}

#[test]
fn selector_without_keys_fails() {
    let s = ApiKeySelector::new();
    assert_eq!(s.len(), 0);
    assert!(matches!(s.next(), Err(SelectorError::NoKeys)));
}

#[test]
fn selector_returns_inserted_pairs() {
    let mut s = ApiKeySelector::new();
    s.insert("raw-a".to_string(), key(1, "ha"));
    s.insert("raw-b".to_string(), key(2, "hb"));
    assert_eq!(s.len(), 2);
    for _ in 0..20 {
        let (raw, k) = s.next().ok().unwrap();
        match raw.as_str() {
            "raw-a" => assert_eq!(k, key(1, "ha")),
            "raw-b" => assert_eq!(k, key(2, "hb")),
            _ => panic!("unknown raw key"),
        }
    }
}

#[test]
fn selector_insert_replaces() {
    let mut s = ApiKeySelector::new();
    s.insert("raw-a".to_string(), key(1, "ha"));
    s.insert("raw-a".to_string(), key(3, "hc"));
    assert_eq!(s.len(), 1);
    let (raw, k) = s.next().ok().unwrap();
    assert_eq!(raw, "raw-a");
    assert_eq!(k, key(3, "hc"));
}

fn args(key: Option<&str>, keys: &[&str]) -> PredictionArgs {
    PredictionArgs {
        openai_api_key: key.map(|k| k.to_string()),
        openai_api_keys: keys.iter().map(|k| k.to_string()).collect(),
        tokens_per_duration: 1000,
        tokens_seconds_per_duration: 60,
        api_calls_per_duration: 1,
        api_calls_seconds_per_duration: 1,
    }
}

#[test]
fn raw_keys_appends_single_key() {
    assert_eq!(
        ApiKeySelector::raw_keys(&args(Some("c"), &["a", "b"])),
        vec!["a".to_string(), "b".to_string(), "c".to_string()]
    );
    assert_eq!(
        ApiKeySelector::raw_keys(&args(None, &["a", "b"])),
        vec!["a".to_string(), "b".to_string()]
    );
    assert!(ApiKeySelector::raw_keys(&args(None, &[])).is_empty());
}

#[test]
fn embedding_records_follow_statements() {
    let ids = vec![10, 11, 12];
    let r = embedding_records(&ids, 2, 77, 5);
    assert_eq!(
        r,
        vec![
            EmbeddingRecord { statement_id: 10, prompt_tokens: 77, api_key_id: 5 },
            EmbeddingRecord { statement_id: 11, prompt_tokens: 77, api_key_id: 5 },
        ]
    );
    assert!(embedding_records(&ids, 0, 1, 1).is_empty());
}
