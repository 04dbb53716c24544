//! The Typst backend: a single compiler invocation per render,
//! parameterized by color and resolution. Fast enough that color changes
//! simply recompile — no cached intermediate.

use vstd::prelude::*;
use vstd::string::*;

use crate::format::{artifact_file_name, spec_colored_name, ImageFormat};
use crate::plan::{Step, StepView};
use crate::strutil::{join_path, spec_join_path, spec_u64_dec, u64_to_dec};

verus! {

/// The compiler's output target: an SVG, or a PNG at a given resolution
/// (pixels per inch).
#[derive(Copy, Clone, Eq, PartialEq, Structural, Debug)]
pub enum Image {
    Svg,
    Png(usize),
}

/// The fixed document text that precedes the color: page sized to
/// content, no margin, text fill about to be set.
pub open spec fn spec_typst_start() -> Seq<char> {
    "\n#import \"@preview/physica:0.8.1\": *\n#set page(width: auto, height: auto, margin: 0pt)\n#set text(11pt, font: \"New Computer Modern\", lang: \"en\", fill: "@
}

/// The complete Typst document for an equation and a color: the fixed
/// preamble, the color compiled in as the text fill, and the equation in
/// inline math delimiters.
pub open spec fn spec_typst_document(eq: Seq<char>, color: Seq<char>) -> Seq<char> {
    spec_typst_start() + color + ")\n$ "@ + eq + " $"@
}

fn typst_start() -> (r: &'static str)
    ensures
        r@ == spec_typst_start(),
{
    "\n#import \"@preview/physica:0.8.1\": *\n#set page(width: auto, height: auto, margin: 0pt)\n#set text(11pt, font: \"New Computer Modern\", lang: \"en\", fill: "
}

/// Write out the Typst document for an equation and a color.
pub fn typst_document(eq: &str, color: &str) -> (r: String)
    ensures
        r@ == spec_typst_document(eq@, color@),
{
    let mut out = typst_start().to_owned();
    out.append(color);
    out.append(")\n$ ");
    out.append(eq);
    out.append(" $");
    proof {
        assert(out@ =~= spec_typst_document(eq@, color@));
    }
    out
}

/// Arguments of the compiler invocation: compile the source to the
/// colored artifact with short diagnostics; for PNG also the resolution
/// and a transparent background.
pub open spec fn spec_typst_args(dir: Seq<char>, color: Seq<char>, image: Image) -> Seq<
    Seq<char>,
> {
    match image {
        Image::Svg => seq![
            "compile"@,
            spec_join_path(dir, "eq.typ"@),
            spec_join_path(dir, spec_colored_name(color, ImageFormat::Svg)),
            "--diagnostic-format"@,
            "short"@,
        ],
        Image::Png(dpi) => seq![
            "compile"@,
            spec_join_path(dir, "eq.typ"@),
            spec_join_path(dir, spec_colored_name(color, ImageFormat::Png)),
            "--diagnostic-format"@,
            "short"@,
            "--ppi"@,
            spec_u64_dec(dpi as int),
            "--background"@,
            "#00000000"@,
        ],
    }
}

/// One full Typst render: write the document, run the compiler once.
pub open spec fn spec_gen_image_plan(
    eq: Seq<char>,
    dir: Seq<char>,
    color: Seq<char>,
    image: Image,
) -> Seq<StepView> {
    seq![
        StepView::WriteFile {
            path: spec_join_path(dir, "eq.typ"@),
            contents: spec_typst_document(eq, color),
        },
        StepView::Run { program: "typst"@, args: spec_typst_args(dir, color, image) },
    ]
}

/// Plan one compiler run for the chosen target.
pub fn gen_image(eq: &str, dir: &str, color: &str, image: Image) -> (r: Vec<Step>)
    ensures
        r.deep_view() == spec_gen_image_plan(eq@, dir@, color@, image),
{
    let typ_path = join_path(dir, "eq.typ");
    let mut args: Vec<String> = Vec::new();
    args.push("compile".to_owned());
    args.push(typ_path.clone());
    match image {
        Image::Svg => {
            let out_name = artifact_file_name(color, ImageFormat::Svg);
            args.push(join_path(dir, out_name.as_str()));
            args.push("--diagnostic-format".to_owned());
            args.push("short".to_owned());
        },
        Image::Png(dpi) => {
            let out_name = artifact_file_name(color, ImageFormat::Png);
            args.push(join_path(dir, out_name.as_str()));
            args.push("--diagnostic-format".to_owned());
            args.push("short".to_owned());
            args.push("--ppi".to_owned());
            args.push(u64_to_dec(dpi as u64));
            args.push("--background".to_owned());
            args.push("#00000000".to_owned());
        },
    }
    proof {
        assert(args.deep_view() =~= spec_typst_args(dir@, color@, image));
    }
    let mut plan: Vec<Step> = Vec::new();
    plan.push(Step::WriteFile { path: typ_path, contents: typst_document(eq, color) });
    plan.push(Step::Run { program: "typst".to_owned(), args });
    proof {
        assert(plan.deep_view() =~~= spec_gen_image_plan(eq@, dir@, color@, image));
    }
    plan
}

/// Plan an SVG render.
pub fn gen_svg(eq: &str, dir: &str, color: &str) -> (r: Vec<Step>)
    ensures
        r.deep_view() == spec_gen_image_plan(eq@, dir@, color@, Image::Svg),
{
    gen_image(eq, dir, color, Image::Svg)
}

/// Plan a PNG render at the given density.
pub fn gen_png(eq: &str, dir: &str, color: &str, density: usize) -> (r: Vec<Step>)
    ensures
        r.deep_view() == spec_gen_image_plan(eq@, dir@, color@, Image::Png(density)),
{
    gen_image(eq, dir, color, Image::Png(density))
}

} // verus!
