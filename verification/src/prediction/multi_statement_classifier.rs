//! The results of prompts about several statements at once and the rows
//! they are stored as.

use vstd::prelude::*;

use crate::ai_prompt::api::{env_label, PromptResponse};
use crate::csv::{ensure_columns, spec_ensure_columns, spec_max_column_count};
use crate::text::{chars_of, lemma_char_vec_deep_view, split_chars, split_on, string_from_chars};
use crate::structs::{Statement, StatementPrediction};

verus! {

/// Rust's integer division, which rounds toward zero.
pub open spec fn div_toward_zero(a: int, b: int) -> int
    recommends
        b > 0,
{
    if a >= 0 {
        a / b
    } else {
        -((-a) / b)
    }
}

/// Container for the result of a prediction
pub struct MultiStatementPromptResult {
    /// Contains just response with stats
    pub response: PromptResponse,
    /// Contains the original statement ids used for the prompt
    pub stmts: Vec<Statement>,
    /// The result for each statement, in the order of `stmts`
    pub result: Vec<String>,
}

impl MultiStatementPromptResult {
    /// The rows stored for this result: one per result item, for the
    /// statement at the same position, with the token counts shared out
    /// evenly (rounded toward zero).
    pub fn predictions(&self) -> (res: Vec<StatementPrediction>)
        requires
            self.result@.len() <= self.stmts@.len(),
            self.result@.len() <= i64::MAX,
        ensures
            res@.len() == self.result@.len(),
            forall|i: int|
                0 <= i < res@.len() ==> {
                    let p = #[trigger] res@[i];
                    let n = self.result@.len() as int;
                    &&& p.statement_id == self.stmts@[i].id
                    &&& p.ai_env@ == env_label(self.response.env_info)
                    &&& p.prompt_name@ == self.response.prompt_info.name@
                    &&& p.prompt_version == self.response.prompt_info.version as i64
                    &&& p.prompt_result@ == self.result@[i]@
                    &&& p.completion_tokens == div_toward_zero(
                        self.response.completion_tokens as int,
                        n,
                    )
                    &&& p.prompt_tokens == div_toward_zero(self.response.prompt_tokens as int, n)
                    &&& p.total_tokens == div_toward_zero(self.response.total_tokens as int, n)
                    &&& p.timestamp == 0
                },
    {
        let mut res: Vec<StatementPrediction> = Vec::new();
        let n = self.result.len();
        if n == 0 {
            return res;
        }
        let num_stmts = n as i64;
        let mut i: usize = 0;
        while i < n
            invariant
                n == self.result@.len(),
                n > 0,
                num_stmts == n,
                n <= self.stmts@.len(),
                i <= n,
                res@.len() == i,
                forall|j: int|
                    0 <= j < i ==> {
                        let p = #[trigger] res@[j];
                        &&& p.statement_id == self.stmts@[j].id
                        &&& p.ai_env@ == env_label(self.response.env_info)
                        &&& p.prompt_name@ == self.response.prompt_info.name@
                        &&& p.prompt_version == self.response.prompt_info.version as i64
                        &&& p.prompt_result@ == self.result@[j]@
                        &&& p.completion_tokens == div_toward_zero(
                            self.response.completion_tokens as int,
                            n as int,
                        )
                        &&& p.prompt_tokens == div_toward_zero(
                            self.response.prompt_tokens as int,
                            n as int,
                        )
                        &&& p.total_tokens == div_toward_zero(
                            self.response.total_tokens as int,
                            n as int,
                        )
                        &&& p.timestamp == 0
                    },
            decreases n - i,
        {
            let env = self.response.env_info.label();
            let p = StatementPrediction {
                statement_id: self.stmts[i].id,
                ai_env: env,
                prompt_name: self.response.prompt_info.name.clone(),
                prompt_version: self.response.prompt_info.version as i64,
                prompt_result: self.result[i].clone(),
                completion_tokens: self.response.completion_tokens / num_stmts,
                prompt_tokens: self.response.prompt_tokens / num_stmts,
                total_tokens: self.response.total_tokens / num_stmts,
                timestamp: 0,
            };
            res.push(p);
            i = i + 1;
        }
        res
    }
}

/// The rows of an answer to the multi statement prompt: its `|`-separated
/// table brought to the width of its widest row, one row per line, at most
/// `n` of them.
pub open spec fn spec_response_rows(content: Seq<char>, n: nat) -> Seq<Seq<char>> {
    let lines = split_on(
        spec_ensure_columns(content, '|', spec_max_column_count(content, '|')),
        '\n',
    );
    if lines.len() <= n {
        lines
    } else {
        lines.take(n as int)
    }
}

/// The rows of the answer `content` for a batch of `n` statements.
pub fn response_rows(content: &str, n: usize) -> (rows: Vec<String>)
    requires
        content@.len() < usize::MAX,
    ensures
        rows@.map_values(|r: String| r@) == spec_response_rows(content@, n as nat),
{
    let table = ensure_columns(content, '|', None);
    let chars = chars_of(table.as_str());
    let lines = split_chars(&chars, '\n');
    let ghost all = lines.deep_view();
    let mut rows: Vec<String> = Vec::new();
    let mut i: usize = 0;
    while i < lines.len() && i < n
        invariant
            all == lines.deep_view(),
            i <= lines@.len(),
            i <= n,
            rows@.map_values(|r: String| r@) == all.take(i as int),
        decreases lines@.len() - i,
    {
        proof {
            lemma_char_vec_deep_view(&lines@[i as int]);
        }
        let row = string_from_chars(&lines[i]);
        let ghost before = rows@.map_values(|r: String| r@);
        rows.push(row);
        assert(rows@.map_values(|r: String| r@) =~= before.push(all[i as int]));
        assert(all.take(i + 1) =~= all.take(i as int).push(all[i as int]));
        i = i + 1;
    }
    if lines.len() <= n {
        assert(all.take(lines@.len() as int) =~= all);
    }
    rows
}

} // verus!
