//! Core of a YAML-configured task runner: JSON values, token expansion,
//! stacked variables, run contexts, run gates, steps and the task engine's
//! decisions. Everything here is pure; processes and files are driven by the
//! caller, which feeds their results back in.

pub mod value;
pub mod text;
pub mod error;
pub mod vars;
pub mod token;
pub mod effect;
pub mod run_context;
pub mod gate;
pub mod common;
pub mod step;
pub mod raw;
pub mod task;
pub mod config;
pub mod cli;
pub mod laws;
pub mod run;
pub mod steady;
