//! Decision logic of a two-step greeting job: ask a text-completion endpoint
//! for a short greeting, then hand that text to a chat webhook.

pub mod config;
pub mod dispatch;
pub mod error;
pub mod generation;
pub mod job;
pub mod prompt;
pub mod run;
