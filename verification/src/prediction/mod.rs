//! Predictions about statements made by language models: the prompts, the
//! interpretation of the answers and the decisions of the runner.

pub mod data;
pub mod multi_statement_classifier;
pub mod openai;
pub mod prediction;
pub mod prompts;
pub mod runner;
