use vstd::prelude::*;

pub mod text;
pub mod json;
pub mod tokens;
pub mod paths;
pub mod auth;
pub mod time;
pub mod kimi;
pub mod display;
pub mod assoc;
pub mod codex;
pub mod costs;
pub mod cli;
