//! Indexing core of a note-taking tool: it finds wikilinks and labels in the
//! text of a note and keeps them in a store that answers which notes a note
//! links to and which notes link to it.
use vstd::prelude::*;

pub mod command;
pub mod index;
pub mod parser;

verus! {

/// Per-session state handed to request handlers.
pub struct Context {}

impl Context {
    pub fn new() -> (ctx: Self)
        ensures
            ctx == (Context {}),
    {
        Context {}
    }
}

} // verus!
