//! Translates natural-language queries into classified shell-command
//! suggestions by driving a pluggable language-model backend.
//!
//! The heart of the crate is the retry-and-repair protocol: a model reply is
//! untrusted free text, so it is normalized, parsed as a JSON array of
//! suggestions, and — when that fails — the failure is fed back into the next
//! prompt, for a bounded number of attempts.  Every suggestion that survives
//! parsing is classified by its self-reported confidence before it reaches a
//! caller, and the execution gate refuses anything classified as uncertain.

pub mod response;
pub mod text;
pub mod confidence;
pub mod decode;
pub mod protocol;
pub mod encode;
pub mod prompt;
pub mod alias;
pub mod llm;
pub mod ollama;
pub mod openai;
pub mod config;
