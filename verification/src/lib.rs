//! Change qualification and pipeline orchestration for a
//! "test && commit || revert" workflow.

pub mod clock;
pub mod config;
pub mod debounce;
pub mod event;
pub mod filter;
pub mod log;
pub mod orchestrator;
pub mod paths;
pub mod runner;
pub mod text;
