//! Generates conventional-commit messages for staged changes through one of
//! two language-model providers.
//!
//! The library decides; its caller acts. [`pipeline::Pipeline`] is the run as
//! a state machine: each state names one action (run git, read a file, read
//! the key variables, send a request, show the message, ask, commit), and
//! [`pipeline::Pipeline::step`] takes what came of it to the next state. The
//! provider clients build their requests and read their answers as plain
//! values; the HTTP transfer and the JSON encoding belong to the caller.
pub mod analysis;
pub mod anthropic;
pub mod client;
pub mod git;
pub mod logs;
pub mod openai;
pub mod pipeline;
pub mod prompt;
pub mod text;
