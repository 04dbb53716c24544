//! The library's laws: properties that relate several operations, stated
//! over the same spec functions the operations' contracts use.

use vstd::prelude::*;

use crate::backends::Backend;
use crate::format::{spec_colored_name, ImageFormat};
use crate::hashing::spec_fnv1a;
use crate::latex::{spec_set_color_plan, spec_gen_png_plan, spec_magick_args};
use crate::plan::StepView;
use crate::recolor::{spec_fill_placeholder, spec_recolor};
use crate::render::spec_render_plan;
use crate::strutil::{spec_join_path, spec_replace};

verus! {

/// Law: a render decision is a pure function of its request — the same
/// equation, color, format, resolution, backend and cache state always
/// yield the same plan, and the color substitution applied to the same
/// text always yields the same bytes. Rendering twice therefore produces
/// identical output, up to what the external tools themselves emit.
pub proof fn lemma_render_idempotent(
    backend1: Backend,
    eq1: Seq<char>,
    dir1: Seq<char>,
    color1: Seq<char>,
    format1: ImageFormat,
    dpi1: usize,
    dir_exists1: bool,
    artifact_exists1: bool,
    svg1: Seq<char>,
    backend2: Backend,
    eq2: Seq<char>,
    dir2: Seq<char>,
    color2: Seq<char>,
    format2: ImageFormat,
    dpi2: usize,
    dir_exists2: bool,
    artifact_exists2: bool,
    svg2: Seq<char>,
)
    requires
        backend1 == backend2,
        eq1 == eq2,
        dir1 == dir2,
        color1 == color2,
        format1 == format2,
        dpi1 == dpi2,
        dir_exists1 == dir_exists2,
        artifact_exists1 == artifact_exists2,
        svg1 == svg2,
    ensures
        spec_render_plan(backend1, eq1, dir1, color1, format1, dpi1, dir_exists1, artifact_exists1)
            == spec_render_plan(
            backend2,
            eq2,
            dir2,
            color2,
            format2,
            dpi2,
            dir_exists2,
            artifact_exists2,
        ),
        spec_recolor(svg1, color1) == spec_recolor(svg2, color2),
{
}

/// Does this step invoke the typesetting engine or the DVI converter?
pub open spec fn spec_is_typeset_run(s: StepView) -> bool {
    s matches StepView::Run { program, args } && (program == "latex"@ || program == "dvisvgm"@)
}

/// Law: once a LaTeX equation's cache directory exists, a render with
/// the same hash never re-invokes the typesetting engine or the DVI
/// converter — whatever the format, the remaining steps are the color
/// substitution and, for PNG, the rasterizer.
pub proof fn lemma_cache_reuse(
    eq: Seq<char>,
    dir: Seq<char>,
    color: Seq<char>,
    format: ImageFormat,
    dpi: usize,
    artifact_exists: bool,
)
    ensures
        forall|i: int|
            0 <= i < spec_render_plan(
                Backend::LaTeX,
                eq,
                dir,
                color,
                format,
                dpi,
                true,
                artifact_exists,
            ).len() ==> !spec_is_typeset_run(
                #[trigger] spec_render_plan(
                    Backend::LaTeX,
                    eq,
                    dir,
                    color,
                    format,
                    dpi,
                    true,
                    artifact_exists,
                )[i],
            ),
{
    let plan = spec_render_plan(Backend::LaTeX, eq, dir, color, format, dpi, true, artifact_exists);
    reveal_strlit("latex");
    reveal_strlit("dvisvgm");
    reveal_strlit("magick");
    assert("magick"@.len() == 6 && "latex"@.len() == 5 && "dvisvgm"@.len() == 7);
    assert(!spec_is_typeset_run(
        StepView::Run { program: "magick"@, args: spec_magick_args(dir, color, dpi as int) },
    ));
    assert forall|i: int| 0 <= i < plan.len() implies !spec_is_typeset_run(plan[i]) by {
        if format is Png {
            assert(plan[plan.len() - 1] == spec_gen_png_plan(dir, color, dpi as int)[0]);
        }
    }
}

/// Law: the equation hash is a pure function of the text's bytes; equal
/// texts hash equally in every process run and every session, which is
/// what makes the cache directory addressable across runs.
pub proof fn lemma_hash_deterministic(a: Seq<u8>, b: Seq<u8>)
    requires
        a == b,
    ensures
        spec_fnv1a(a) == spec_fnv1a(b),
{
}

/// Law: re-coloring derives a new file and leaves the colorless
/// intermediate untouched. The color-substitution plan's one step reads
/// `eq.svg` and writes `<color>_eq.svg`, whose path is never `eq.svg`'s;
/// and two different colors write two different files, so earlier colored
/// variants survive later ones.
pub proof fn lemma_set_color_round_trip(dir: Seq<char>, c1: Seq<char>, c2: Seq<char>)
    ensures
        spec_set_color_plan(dir, c1) == seq![
            StepView::Recolor {
                src: spec_join_path(dir, "eq.svg"@),
                dst: spec_join_path(dir, spec_colored_name(c1, ImageFormat::Svg)),
                color: c1,
            },
        ],
        spec_join_path(dir, spec_colored_name(c1, ImageFormat::Svg)) != spec_join_path(
            dir,
            "eq.svg"@,
        ),
        spec_colored_name(c1, ImageFormat::Svg) == spec_colored_name(c2, ImageFormat::Svg)
            ==> c1 == c2,
{
    reveal_strlit("eq.svg");
    reveal_strlit("_eq.");
    reveal_strlit("svg");
    let name1 = spec_colored_name(c1, ImageFormat::Svg);
    assert(name1.len() == c1.len() + 7);
    assert(spec_join_path(dir, name1).len() != spec_join_path(dir, "eq.svg"@).len());
    if spec_colored_name(c1, ImageFormat::Svg) == spec_colored_name(c2, ImageFormat::Svg) {
        assert(c1.len() == c2.len());
        assert(c1 =~= spec_colored_name(c1, ImageFormat::Svg).take(c1.len() as int));
        assert(c2 =~= spec_colored_name(c2, ImageFormat::Svg).take(c2.len() as int));
    }
}

/// Is `pat` somewhere in `s` as a contiguous run?
pub open spec fn spec_occurs(s: Seq<char>, pat: Seq<char>) -> bool {
    exists|i: int| 0 <= i && i + pat.len() <= s.len() && #[trigger] s.subrange(i, i + pat.len() as int) == pat
}

/// Law: a text that holds no occurrence of the pattern comes back from
/// the substitution unchanged — in particular, an SVG without the fill
/// placeholder is not altered by re-coloring.
pub proof fn lemma_replace_absent(s: Seq<char>, pat: Seq<char>, rep: Seq<char>)
    requires
        pat.len() > 0,
        !spec_occurs(s, pat),
    ensures
        spec_replace(s, pat, rep) == s,
    decreases s.len(),
{
    if s.len() >= pat.len() {
        assert(s.subrange(0, pat.len() as int) != pat) by {
            if s.subrange(0, pat.len() as int) == pat {
                assert(0 + pat.len() <= s.len() && s.subrange(0, 0 + pat.len() as int) == pat);
            }
        }
        assert(!spec_occurs(s.skip(1), pat)) by {
            if spec_occurs(s.skip(1), pat) {
                let i = choose|i: int|
                    0 <= i && i + pat.len() <= s.skip(1).len() && #[trigger] s.skip(1).subrange(
                        i,
                        i + pat.len() as int,
                    ) == pat;
                assert(s.subrange(i + 1, i + 1 + pat.len() as int) =~= s.skip(1).subrange(
                    i,
                    i + pat.len() as int,
                ));
                assert(0 <= i + 1 && (i + 1) + pat.len() <= s.len() && s.subrange(
                    i + 1,
                    (i + 1) + pat.len() as int,
                ) == pat);
            }
        }
        lemma_replace_absent(s.skip(1), pat, rep);
        assert(spec_replace(s, pat, rep) =~= s);
    }
}

/// Law: re-coloring an SVG that carries no fill placeholder leaves it
/// byte-identical.
pub proof fn lemma_recolor_absent(svg: Seq<char>, color: Seq<char>)
    requires
        !spec_occurs(svg, spec_fill_placeholder()),
    ensures
        spec_recolor(svg, color) == svg,
{
    reveal_strlit("#fff");
    lemma_replace_absent(svg, spec_fill_placeholder(), color);
}

} // verus!
