//! Verified interaction logic for the Medulla terminal: workspace ranking,
//! Git output parsing, the Changes review cursor, the session rail, and the
//! application state machine that routes keys, clicks and pastes.
use vstd::prelude::*;

pub mod agents;
pub mod app;
pub mod baseline;
pub mod changes;
pub mod commands;
pub mod composer;
pub mod decisions;
pub mod feedback;
pub mod git;
pub mod harness;
pub mod hosts;
pub mod keymap;
pub mod keys;
pub mod lists;
pub mod matching;
pub mod nav;
pub mod pointer;
pub mod rail;
pub mod repository;
pub mod settings;
pub mod text;
pub mod workflows;
pub mod workspace;

verus! {
} // verus!
