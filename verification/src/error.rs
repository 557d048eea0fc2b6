//! Error taxonomy of the scaffolding engine.

use vstd::prelude::*;

verus! {

/// Why a run failed.
#[derive(Clone, Debug, PartialEq, Eq)]
pub enum Error {
    /// A package name was required (no manifest yet) but absent.
    Validation,
    /// A template referenced a placeholder the context has no policy for;
    /// holds the placeholder's name.
    Template(String),
    /// Reading or writing a file failed; holds the operation's name.
    Io(String),
    /// The project initializer failed; holds its name.
    Collaborator(String),
}

} // verus!
