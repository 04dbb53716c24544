//! Backend orchestration for a desktop equation renderer.
//!
//! A math expression (LaTeX or Typst markup) is turned into an SVG or PNG
//! image by external toolchains. This library holds everything that can be
//! decided without touching the machine: which external commands to run and
//! in what order (a render *plan*), the content-addressed cache layout, the
//! documents handed to the typesetters, the color substitution applied to a
//! generated SVG, and the classification of an external tool's output. A
//! thin unverified driver executes the plans and feeds results back.

use vstd::prelude::*;

pub mod backends;
pub mod diagnostics;
pub mod errors;
pub mod format;
pub mod hashing;
pub mod icons;
pub mod latex;
pub mod laws;
pub mod plan;
pub mod recolor;
pub mod render;
pub mod strutil;
pub mod typst;

verus! {

/// True when the string holds at least one character.
pub fn not_empty(s: &String) -> (r: bool)
    ensures
        r == (s@.len() != 0),
{
    !s.as_str().is_empty()
}

} // verus!
