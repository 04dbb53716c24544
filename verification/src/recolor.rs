//! The color post-processing step.
//!
//! The LaTeX document template sets a white foreground, so the SVG that
//! the DVI converter emits carries the fixed fill token `#fff`. A colored
//! variant is derived from that colorless intermediate by a literal
//! substring replacement — no retypesetting.

use vstd::prelude::*;

use crate::strutil::{replace_all, spec_replace};

verus! {

/// The fill token that the colorless intermediate SVG carries.
pub open spec fn spec_fill_placeholder() -> Seq<char> {
    "#fff"@
}

/// The colored variant of an SVG text: every occurrence of the fill
/// placeholder replaced by `color`.
pub open spec fn spec_recolor(svg: Seq<char>, color: Seq<char>) -> Seq<char> {
    spec_replace(svg, spec_fill_placeholder(), color)
}

/// Substitute the fill placeholder of a colorless SVG by a color. The
/// input text is left untouched; the result differs from it exactly in
/// the replaced occurrences.
pub fn recolor_svg(svg: &str, color: &str) -> (r: String)
    ensures
        r@ == spec_recolor(svg@, color@),
{
    let pat = "#fff";
    proof {
        reveal_strlit("#fff");
    }
    replace_all(svg, pat, color)
}

} // verus!
