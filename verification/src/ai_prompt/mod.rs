//! Descriptions of prompts for language models and of their responses.

pub mod api;
pub mod openai;
