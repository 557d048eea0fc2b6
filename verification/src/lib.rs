//! Scaffolding engine for a Nix build-configuration tree around a Cargo
//! project: decides which files to generate for a given option set, builds
//! the substitution context for the templates, renders them, and patches an
//! existing manifest without disturbing unrelated content.

use vstd::prelude::*;

pub mod context;
pub mod error;
pub mod fileset;
pub mod machine;
pub mod manifest;
pub mod options;
pub mod render;
pub mod text;

pub use error::Error;
pub use options::Options;

verus! {

/// The quoted form of a piece of text: the text wrapped in double quotes,
/// as manifest string values require.
pub open spec fn quoted(s: Seq<char>) -> Seq<char> {
    "\""@ + s + "\""@
}

/// Wrap a value in double quotes for use as a manifest string value.
pub fn quote(value: &str) -> (r: String)
    ensures
        r@ == quoted(value@),
{
    let mut out = String::from_str("\"");
    out.append(value);
    out.append("\"");
    out
}

} // verus!
