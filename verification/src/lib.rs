//! Core library of a privacy-first typing-suggestion daemon: keystroke
//! classification, privacy guards, context packaging, prompt building and the
//! decision logic that drives a local language-model backend.

pub mod text;
pub mod privacy;
pub mod input;
pub mod context;
pub mod config;
pub mod commands;
pub mod llm;
pub mod overlay;
