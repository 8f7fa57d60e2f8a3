//! Decision logic of a package-installation front end that resolves names
//! against a binary repository and a community source-build repository.
//!
//! The I/O (processes, HTTP, files, prompts) is performed by the caller; the
//! library decides what to do next and builds every process specification.
use vstd::prelude::*;

pub mod catalog;
pub mod command;
pub mod config;
pub mod fetch;
pub mod job;
pub mod prompt;
pub mod session;
pub mod text;
pub mod tools;

verus! {

} // verus!
