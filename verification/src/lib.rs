//! A command-shell bridge: a bounded terminal text buffer, a shell-style
//! tokenizer, and the dispatch of built-in directives.

use vstd::prelude::*;

pub mod cmd;
pub mod font;
pub mod prompt;
pub mod render;
pub mod screen;
pub mod subprocess;
pub mod text;

verus! {

/// Toggles in `s` the flags that are set in `b`.
pub fn bitflip(s: u16, b: u16) -> (r: u16)
    ensures
        r == s ^ b,
{
    s ^ b
}

} // verus!
