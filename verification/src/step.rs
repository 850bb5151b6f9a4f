//! The kinds of step, and how each is evaluated.

pub mod bash_step;
pub mod basic_step;
pub mod common;
pub mod parallel_step;
pub mod python_step;
pub mod task_step;
