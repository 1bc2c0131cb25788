//! A small command-line dispatcher.
//!
//! The dispatcher understands four subcommands — run, build, deploy and
//! setup — and turns a raw argument vector into a typed invocation, checks
//! that a required package identifier is present, and plans the external
//! process call that carries the invocation out. Launching the process is
//! left to the surrounding program; the library states and proves what is
//! planned and how an outcome is reported.

pub mod action;
pub mod command;
pub mod errors;
pub mod plan;
