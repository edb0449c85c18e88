//! Core of a branch-sweeping assistant: it classifies local branches that are
//! already merged into a reference branch as protected or deletable, drives
//! the interactive confirmation state machine, and records per-branch
//! deletion outcomes. All external work (running the version-control tool,
//! reading configuration, prompting, rendering messages) is requested from
//! the caller as plain data and answered with plain data.

pub mod broom;
pub mod classify;
pub mod engine;
pub mod executor;
pub mod patterns;
pub mod text;
