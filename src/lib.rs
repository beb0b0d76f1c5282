//! A small build orchestrator for C projects: it checks a project's layout,
//! reads its manifest, discovers its sources and assembles the compiler call.
//! The filesystem and process work is left to the caller, which hands the
//! results back to the step functions defined here.

pub mod toolchain;
pub mod error;
pub mod manifest;
pub mod layout;
pub mod command;
pub mod orchestrator;
pub mod cli;
pub mod project;
