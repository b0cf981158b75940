//! Core logic of `folder`, a small terminal tool that creates a directory
//! (optionally with one file and its contents) and permanently removes a
//! directory tree after an interactive confirmation.
//!
//! This crate holds everything the tool decides: how an argument list is
//! classified into an invocation, when a confirmation answer counts as a
//! "yes", and the exact message and exit code of every terminal outcome.
//! The filesystem and console calls themselves live in the surrounding
//! binary, which hands plain strings in and carries the decisions out.

use vstd::prelude::*;

verus! {

pub mod args;

pub mod confirm;

pub mod outcome;

} // verus!
