# Propolis

A discussion platform built around yes/no questions: users answer
statements, add follow-up statements for those who answered one way or the
other, and a background runner asks a language model to classify
statements.

## Layout

- `src/` is the library, verified with Verus. It holds the logic of the
  platform as functions with contracts:
  - `text`, `string_ext`, `csv`, `md`, `highlight`: text handling (CSV
    normalisation, markdown code blocks, search highlighting);
  - `structs`, `datas`, `api`, `opts`: the domain types (votes, statement
    flags, API keys and their hashing, the option types);
  - `pages`: the decisions the web pages take (redirects after a vote,
    follow-up targets, account merges, link previews, QR codes);
  - `ai_prompt`, `prediction`: prompts, moderation verdicts, the rows stored
    for predictions and embeddings, the key selector, and the runner's
    state machine (`runner_step`), whose laws are proved in
    `prediction/runner.rs`.
- `tests/` runs the library on concrete values.
- `app/` is the program around the library: the HTTP server and its HTML
  pages, the SQLite queries, the calls to OpenAI, the rate limiter and the
  loop that performs the runner's steps.
