//! Verified core of the Propolis discussion platform: text utilities,
//! CSV normalisation, prompt construction and the decisions taken by the
//! prediction runner and the web pages.

pub mod ai_prompt;
pub mod api;
pub mod auth;
pub mod csv;
pub mod datas;
pub mod db;
pub mod highlight;
pub mod md;
pub mod opts;
pub mod pages;
pub mod prediction;
pub mod string_ext;
pub mod structs;
pub mod text;
pub mod util;
