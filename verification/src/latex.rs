//! The LaTeX backend: a two-stage external pipeline (typesetter, then
//! DVI-to-SVG converter), a rasterizer for PNG output, and the cheap
//! color-substitution path that avoids retypesetting.

use vstd::prelude::*;
use vstd::string::*;

use crate::format::{artifact_file_name, spec_colored_name, ImageFormat};
use crate::plan::{Step, StepView};
use crate::strutil::{join_path, spec_join_path, spec_u64_dec, str_concat, str_concat3, u64_to_dec};

verus! {

/// The fixed document text that precedes the equation: a math-mode
/// article with the usual math packages, color support, UTF-8 input, and
/// a white foreground (the color-substitution placeholder).
pub open spec fn spec_latex_start() -> Seq<char> {
    "\\documentclass[12pt]{article}\n\\usepackage{amsmath}\n\\usepackage{amssymb}\n\\usepackage{amsfonts}\n\\usepackage[usenames,dvipsnames]{color}\n\\usepackage[utf8]{inputenc}\n\\thispagestyle{empty}\n\\begin{document}\n\\color{white}\n\\begin{align*}\n    "@
}

/// The fixed document text that follows the equation.
pub open spec fn spec_latex_end() -> Seq<char> {
    "\n\\end{align*}\n\\end{document}"@
}

/// The complete LaTeX document wrapping an equation.
pub open spec fn spec_latex_document(eq: Seq<char>) -> Seq<char> {
    spec_latex_start() + eq + spec_latex_end()
}

fn latex_start() -> (r: &'static str)
    ensures
        r@ == spec_latex_start(),
{
    "\\documentclass[12pt]{article}\n\\usepackage{amsmath}\n\\usepackage{amssymb}\n\\usepackage{amsfonts}\n\\usepackage[usenames,dvipsnames]{color}\n\\usepackage[utf8]{inputenc}\n\\thispagestyle{empty}\n\\begin{document}\n\\color{white}\n\\begin{align*}\n    "
}

fn latex_end() -> (r: &'static str)
    ensures
        r@ == spec_latex_end(),
{
    "\n\\end{align*}\n\\end{document}"
}

/// Wrap an equation in the fixed document preamble and epilogue.
pub fn latex_document(eq: &str) -> (r: String)
    ensures
        r@ == spec_latex_document(eq@),
{
    str_concat3(latex_start(), eq, latex_end())
}

/// Arguments of the typesetter invocation: non-interactive, halting on
/// the first error, writing its outputs into the cache directory.
pub open spec fn spec_latex_args(dir: Seq<char>) -> Seq<Seq<char>> {
    seq![
        "-no-shell-escape"@,
        "-interaction=nonstopmode"@,
        "-halt-on-error"@,
        "-output-directory="@ + dir,
        spec_join_path(dir, "eq.tex"@),
    ]
}

/// Arguments of the DVI-to-SVG conversion: fonts outlined, exact
/// bounding box, writing `eq.svg` into the cache directory.
pub open spec fn spec_dvisvgm_args(dir: Seq<char>) -> Seq<Seq<char>> {
    seq![
        "--no-fonts"@,
        "--scale=1"@,
        "--exact"@,
        "-o"@,
        spec_join_path(dir, "eq.svg"@),
        spec_join_path(dir, "eq.dvi"@),
    ]
}

/// The full SVG pipeline for an equation whose cache directory does not
/// exist yet: create it, write the document, typeset, convert, and derive
/// the colored variant.
pub open spec fn spec_gen_svg_plan(eq: Seq<char>, dir: Seq<char>, color: Seq<char>) -> Seq<
    StepView,
> {
    seq![
        StepView::CreateDir { path: dir },
        StepView::WriteFile {
            path: spec_join_path(dir, "eq.tex"@),
            contents: spec_latex_document(eq),
        },
        StepView::Run { program: "latex"@, args: spec_latex_args(dir) },
        StepView::Run { program: "dvisvgm"@, args: spec_dvisvgm_args(dir) },
        StepView::Recolor {
            src: spec_join_path(dir, "eq.svg"@),
            dst: spec_join_path(dir, spec_colored_name(color, ImageFormat::Svg)),
            color: color,
        },
    ]
}

/// The cheap re-coloring path for an already-populated cache directory:
/// derive `<color>_eq.svg` from the colorless `eq.svg`, touching nothing
/// else.
pub open spec fn spec_set_color_plan(dir: Seq<char>, color: Seq<char>) -> Seq<StepView> {
    seq![
        StepView::Recolor {
            src: spec_join_path(dir, "eq.svg"@),
            dst: spec_join_path(dir, spec_colored_name(color, ImageFormat::Svg)),
            color: color,
        },
    ]
}

/// Arguments of the rasterizer invocation: transparent background, the
/// requested density, from the colored SVG to the colored PNG.
pub open spec fn spec_magick_args(dir: Seq<char>, color: Seq<char>, dpi: int) -> Seq<Seq<char>> {
    seq![
        "convert"@,
        "-background"@,
        "none"@,
        "-density"@,
        spec_u64_dec(dpi),
        spec_join_path(dir, spec_colored_name(color, ImageFormat::Svg)),
        spec_join_path(dir, spec_colored_name(color, ImageFormat::Png)),
    ]
}

/// The PNG step for the LaTeX backend: rasterize the colored SVG that an
/// earlier step produced.
pub open spec fn spec_gen_png_plan(dir: Seq<char>, color: Seq<char>, dpi: int) -> Seq<StepView> {
    seq![StepView::Run { program: "magick"@, args: spec_magick_args(dir, color, dpi) }]
}

/// Plan the full SVG pipeline for an equation not in the cache.
pub fn gen_svg(eq: &str, dir: &str, color: &str) -> (r: Vec<Step>)
    ensures
        r.deep_view() == spec_gen_svg_plan(eq@, dir@, color@),
{
    let tex_path = join_path(dir, "eq.tex");
    let svg_path = join_path(dir, "eq.svg");
    let dvi_path = join_path(dir, "eq.dvi");
    let colored = artifact_file_name(color, ImageFormat::Svg);
    let colored_path = join_path(dir, colored.as_str());

    let mut latex_args: Vec<String> = Vec::new();
    latex_args.push("-no-shell-escape".to_owned());
    latex_args.push("-interaction=nonstopmode".to_owned());
    latex_args.push("-halt-on-error".to_owned());
    latex_args.push(str_concat("-output-directory=", dir));
    latex_args.push(tex_path.clone());
    proof {
        assert(latex_args.deep_view() =~= spec_latex_args(dir@));
    }

    let mut dvisvgm_args: Vec<String> = Vec::new();
    dvisvgm_args.push("--no-fonts".to_owned());
    dvisvgm_args.push("--scale=1".to_owned());
    dvisvgm_args.push("--exact".to_owned());
    dvisvgm_args.push("-o".to_owned());
    dvisvgm_args.push(svg_path.clone());
    dvisvgm_args.push(dvi_path);
    proof {
        assert(dvisvgm_args.deep_view() =~= spec_dvisvgm_args(dir@));
    }

    let mut plan: Vec<Step> = Vec::new();
    plan.push(Step::CreateDir { path: dir.to_owned() });
    plan.push(Step::WriteFile { path: tex_path, contents: latex_document(eq) });
    plan.push(Step::Run { program: "latex".to_owned(), args: latex_args });
    plan.push(Step::Run { program: "dvisvgm".to_owned(), args: dvisvgm_args });
    plan.push(Step::Recolor { src: svg_path, dst: colored_path, color: color.to_owned() });
    proof {
        assert(plan.deep_view() =~~= spec_gen_svg_plan(eq@, dir@, color@));
    }
    plan
}

/// Plan the re-coloring of an already-typeset equation.
pub fn set_color(dir: &str, color: &str) -> (r: Vec<Step>)
    ensures
        r.deep_view() == spec_set_color_plan(dir@, color@),
{
    let svg_path = join_path(dir, "eq.svg");
    let colored = artifact_file_name(color, ImageFormat::Svg);
    let colored_path = join_path(dir, colored.as_str());
    let mut plan: Vec<Step> = Vec::new();
    plan.push(Step::Recolor { src: svg_path, dst: colored_path, color: color.to_owned() });
    proof {
        assert(plan.deep_view() =~~= spec_set_color_plan(dir@, color@));
    }
    plan
}

/// Plan the rasterization of the colored SVG to a PNG at the given
/// density.
pub fn gen_png(dir: &str, color: &str, density: usize) -> (r: Vec<Step>)
    ensures
        r.deep_view() == spec_gen_png_plan(dir@, color@, density as int),
{
    let svg_name = artifact_file_name(color, ImageFormat::Svg);
    let png_name = artifact_file_name(color, ImageFormat::Png);
    let mut args: Vec<String> = Vec::new();
    args.push("convert".to_owned());
    args.push("-background".to_owned());
    args.push("none".to_owned());
    args.push("-density".to_owned());
    args.push(u64_to_dec(density as u64));
    args.push(join_path(dir, svg_name.as_str()));
    args.push(join_path(dir, png_name.as_str()));
    proof {
        assert(args.deep_view() =~= spec_magick_args(dir@, color@, density as int));
    }
    let mut plan: Vec<Step> = Vec::new();
    plan.push(Step::Run { program: "magick".to_owned(), args });
    proof {
        assert(plan.deep_view() =~~= spec_gen_png_plan(dir@, color@, density as int));
    }
    plan
}

} // verus!
