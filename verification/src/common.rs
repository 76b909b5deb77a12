//! The request and response shapes exchanged with the remote
//! command-generation service, and the context mapping sent along with an
//! ask.  The wire encoding is the caller's concern; here they are plain data.

use vstd::prelude::*;

verus! {

/// A generated shell command.
#[derive(Debug)]
pub struct CliPrompt {
    pub value: String,
}

/// What the remote service answers to a prompt request.
#[derive(Debug)]
pub struct GetCliPromptResponse {
    pub prompt: CliPrompt,
}

/// One key/value pair of a context category.
#[derive(Debug)]
pub struct ContextEntry {
    pub key: String,
    pub value: String,
}

/// A named group of context entries (for example "general").
#[derive(Debug)]
pub struct ContextCategory {
    pub name: String,
    pub entries: Vec<ContextEntry>,
}

/// The two-level context mapping sent to the remote service:
/// category name, then key, then value.  Keys are unique within a level.
#[derive(Debug)]
pub struct CliContext {
    pub categories: Vec<ContextCategory>,
}

/// What is sent to the remote service: the ask and the context.
#[derive(Debug)]
pub struct GetCliPromptRequestBody {
    pub ask: String,
    pub context: CliContext,
}

/// The entries of a category as a sequence of key/value character pairs.
pub open spec fn entries_view(entries: Seq<ContextEntry>) -> Seq<(Seq<char>, Seq<char>)> {
    Seq::new(entries.len(), |i: int| (entries[i].key@, entries[i].value@))
}

} // verus!
