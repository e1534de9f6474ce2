//! zaindari — one report model and one exit-code policy over three
//! LLM-trust engines (Gate, Guard, Watch), with verified parsing of the
//! engines' plain-text output.

pub mod text;
pub mod report;
pub mod policy;
pub mod guard;
pub mod config;
pub mod run;
pub mod native;
pub mod gate;
pub mod watch;
pub mod failure;
pub mod engine;
