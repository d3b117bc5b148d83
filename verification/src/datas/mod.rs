//! Data kept about statements and API keys.

pub mod apikey;
pub mod statement;
