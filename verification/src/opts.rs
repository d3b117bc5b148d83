//! Program options. The command line parser fills these in the
//! application.

use vstd::prelude::*;

verus! {

/// Settings of the prediction runner.
#[derive(Clone, Debug)]
pub struct PredictionArgs {
    /// API key used for requests to openai
    pub openai_api_key: Option<String>,
    /// API keys used for requests to openai
    pub openai_api_keys: Vec<String>,
    /// Used (openai) tokens allowed per duration before rate limiting takes action
    pub tokens_per_duration: u64,
    /// Duration length in seconds for rate limiting used (openai) tokens
    pub tokens_seconds_per_duration: u64,
    /// API calls allowed per duration
    pub api_calls_per_duration: u64,
    /// Duration length in seconds for rate limiting API calls
    pub api_calls_seconds_per_duration: u64,
}

/// The options of a build without predictions.
#[derive(Clone, Debug)]
pub struct PredictionOpts {}

/// Where the database is.
#[derive(Clone, Debug)]
pub struct DatabaseArgs {
    /// URL to database
    pub database_url: String,
}

/// Program options
#[derive(Debug)]
pub struct CommandLineArgs {
    pub prediction: PredictionArgs,
    pub database: DatabaseArgs,
}

} // verus!
