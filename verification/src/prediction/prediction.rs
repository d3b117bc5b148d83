//! Single-statement predictions, cached in the database.

use vstd::prelude::*;

use crate::ai_prompt::api::PromptResponse;
use crate::structs::StatementPrediction;

verus! {

/// The prediction looked up before asking the model: it names the
/// statement, the environment and the prompt, and holds no result yet.
pub fn prediction_stub(
    statement_id: i64,
    ai_env: String,
    prompt_name: String,
    prompt_version: u16,
) -> (res: StatementPrediction)
    ensures
        res.statement_id == statement_id,
        res.ai_env == ai_env,
        res.prompt_name == prompt_name,
        res.prompt_version == prompt_version as i64,
        res.prompt_result@ == ""@,
        res.completion_tokens == 0,
        res.prompt_tokens == 0,
        res.total_tokens == 0,
        res.timestamp == 0,
{
    StatementPrediction {
        statement_id,
        ai_env,
        prompt_name,
        prompt_version: prompt_version as i64,
        prompt_result: "".to_owned(),
        completion_tokens: 0,
        prompt_tokens: 0,
        total_tokens: 0,
        timestamp: 0,
    }
}

/// The prediction with the answer of the model filled in.
pub fn with_response(stub: StatementPrediction, response: PromptResponse) -> (res: StatementPrediction)
    ensures
        res.statement_id == stub.statement_id,
        res.ai_env == stub.ai_env,
        res.prompt_name == stub.prompt_name,
        res.prompt_version == stub.prompt_version,
        res.prompt_result == response.content,
        res.completion_tokens == response.completion_tokens,
        res.prompt_tokens == response.prompt_tokens,
        res.total_tokens == response.total_tokens,
        res.timestamp == stub.timestamp,
{
    let mut p = stub;
    p.prompt_result = response.content;
    p.completion_tokens = response.completion_tokens;
    p.prompt_tokens = response.prompt_tokens;
    p.total_tokens = response.total_tokens;
    p
}

} // verus!
