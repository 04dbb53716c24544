//! The top-level render decision.
//!
//! For one request — equation, color, format, resolution, backend — this
//! module decides the full sequence of steps that brings the cache
//! directory to a state holding the requested artifact. The decision
//! embodies the cache policy: a LaTeX equation already typeset under the
//! same hash is never retypeset, only re-colored; a colored SVG already
//! present satisfies an SVG request with no step at all; Typst always
//! recompiles. An empty equation is rejected before any step exists.

use vstd::prelude::*;
use vstd::string::*;

use crate::backends::{spec_stylized, Backend};
use crate::errors::GuiError;
use crate::format::ImageFormat;
use crate::latex;
use crate::plan::{Step, StepView};
use crate::typst;
use crate::typst::Image;

verus! {

/// The color compiled in when the user typed none.
pub fn default_color() -> (r: &'static str)
    ensures
        r@ == "white"@,
{
    "white"
}

/// The PNG-producing phase for a backend: LaTeX rasterizes the colored
/// SVG it already has; Typst compiles once more with a PNG target.
pub open spec fn spec_png_plan(
    backend: Backend,
    eq: Seq<char>,
    dir: Seq<char>,
    color: Seq<char>,
    dpi: usize,
) -> Seq<StepView> {
    match backend {
        Backend::LaTeX => latex::spec_gen_png_plan(dir, color, dpi as int),
        Backend::Typst => typst::spec_gen_image_plan(eq, dir, color, Image::Png(dpi)),
    }
}

impl Backend {
    /// Route a PNG request to the matching backend's PNG path. The LaTeX
    /// path ignores the equation text — its colored SVG already exists —
    /// while the Typst path compiles from it.
    pub fn gen_png(self, eq: &str, dir: &str, color: &str, dpi: usize) -> (r: Vec<Step>)
        ensures
            r.deep_view() == spec_png_plan(self, eq@, dir@, color@, dpi),
    {
        match self {
            Backend::LaTeX => latex::gen_png(dir, color, dpi),
            Backend::Typst => typst::gen_png(eq, dir, color, dpi),
        }
    }
}

/// The SVG-producing phase: the full LaTeX pipeline for an unseen
/// equation, only the color substitution for a cached one, nothing at
/// all when the requested SVG already exists, and one Typst compile
/// regardless of any cache.
pub open spec fn spec_svg_phase(
    backend: Backend,
    eq: Seq<char>,
    dir: Seq<char>,
    color: Seq<char>,
    format: ImageFormat,
    dir_exists: bool,
    artifact_exists: bool,
) -> Seq<StepView> {
    match backend {
        Backend::LaTeX => if !dir_exists {
            latex::spec_gen_svg_plan(eq, dir, color)
        } else if artifact_exists && format is Svg {
            Seq::empty()
        } else {
            latex::spec_set_color_plan(dir, color)
        },
        Backend::Typst => typst::spec_gen_image_plan(eq, dir, color, Image::Svg),
    }
}

/// The complete plan for one render request: the SVG phase, then, for a
/// PNG request, the PNG phase.
pub open spec fn spec_render_plan(
    backend: Backend,
    eq: Seq<char>,
    dir: Seq<char>,
    color: Seq<char>,
    format: ImageFormat,
    dpi: usize,
    dir_exists: bool,
    artifact_exists: bool,
) -> Seq<StepView> {
    spec_svg_phase(backend, eq, dir, color, format, dir_exists, artifact_exists) + if format
        is Png {
        spec_png_plan(backend, eq, dir, color, dpi)
    } else {
        Seq::empty()
    }
}

/// Decide the steps for one render request.
///
/// `dir` is the cache directory resolved for this request (the hash
/// directory for LaTeX, the session directory for Typst); `dir_exists`
/// says whether it is already on disk, and `artifact_exists` whether it
/// already holds `<color>_eq.<ext>` for the requested color and format.
/// An empty equation fails at once with `EmptyInput` — no plan, so no
/// external process — and every non-empty equation gets a plan.
pub fn render_plan(
    backend: Backend,
    eq: &str,
    dir: &str,
    color: &str,
    format: ImageFormat,
    dpi: usize,
    dir_exists: bool,
    artifact_exists: bool,
) -> (r: Result<Vec<Step>, GuiError>)
    ensures
        r is Err <==> eq@.len() == 0,
        r matches Err(e) ==> e matches GuiError::EmptyInput(b) && b@ == spec_stylized(backend),
        r matches Ok(p) ==> p.deep_view() == spec_render_plan(
            backend,
            eq@,
            dir@,
            color@,
            format,
            dpi,
            dir_exists,
            artifact_exists,
        ),
{
    if eq.is_empty() {
        return Err(GuiError::EmptyInput(backend.stylized().to_owned()));
    }
    let mut plan: Vec<Step> = match backend {
        Backend::LaTeX => {
            if !dir_exists {
                latex::gen_svg(eq, dir, color)
            } else if artifact_exists && format == ImageFormat::Svg {
                Vec::new()
            } else {
                latex::set_color(dir, color)
            }
        },
        Backend::Typst => typst::gen_svg(eq, dir, color),
    };
    let ghost svg_phase = plan.deep_view();
    if format == ImageFormat::Png {
        let mut png = backend.gen_png(eq, dir, color, dpi);
        let ghost png_phase = png.deep_view();
        plan.append(&mut png);
        proof {
            assert(plan.deep_view() =~= svg_phase + png_phase);
        }
    }
    proof {
        assert(plan.deep_view() =~= spec_render_plan(
            backend,
            eq@,
            dir@,
            color@,
            format,
            dpi,
            dir_exists,
            artifact_exists,
        ));
    }
    Ok(plan)
}

} // verus!
