//! End-to-end render scenarios against mocked external tools: an
//! in-memory file system and a runner that simulates what each tool
//! leaves behind.

use equation_maker::backends::Backend;
use equation_maker::errors::GuiError;
use equation_maker::format::{artifact_file_name, ImageFormat};
use equation_maker::hashing::{equation_hash, get_dir};
use equation_maker::plan::Step;
use equation_maker::recolor::recolor_svg;
use equation_maker::render::render_plan;

#[derive(Default)]
struct MockWorld {
    dirs: Vec<String>,
    files: Vec<(String, String)>,
    runs: Vec<String>,
    writes: Vec<String>,
}

impl MockWorld {
    fn read(&self, path: &str) -> Option<&str> {
        self.files.iter().rev().find(|(p, _)| p == path).map(|(_, c)| c.as_str())
    }

    fn write(&mut self, path: String, contents: String) {
        self.writes.push(path.clone());
        self.files.retain(|(p, _)| p != &path);
        self.files.push((path, contents));
    }

    fn has_file(&self, path: &str) -> bool {
        self.files.iter().any(|(p, _)| p == path)
    }

    /// Perform a plan as the driver would, simulating each tool's output
    /// files, and stop at the first failure.
    fn execute(&mut self, plan: Vec<Step>) -> Result<(), GuiError> {
        for step in plan {
            match step {
                Step::CreateDir { path } => {
                    if self.dirs.contains(&path) {
                        return Err(GuiError::DirCreate);
                    }
                    self.dirs.push(path);
                }
                Step::WriteFile { path, contents } => {
                    self.write(path, contents);
                }
                Step::Run { program, args } => {
                    self.runs.push(program.clone());
                    match program.as_str() {
                        "latex" => {
                            // consumes <dir>/eq.tex, leaves <dir>/eq.dvi
                            let tex = args.last().unwrap().clone();
                            assert!(self.has_file(&tex), "typesetter ran without {tex}");
                            let dvi = tex.replace(".tex", ".dvi");
                            let src = self.read(&tex).unwrap().to_string();
                            self.write(dvi, format!("DVI[{src}]"));
                        }
                        "dvisvgm" => {
                            // -o <svg> <dvi>: leaves a white-filled SVG
                            let svg = args[4].clone();
                            let dvi = args[5].clone();
                            assert!(self.has_file(&dvi), "converter ran without {dvi}");
                            let src = self.read(&dvi).unwrap().to_string();
                            self.write(svg, format!("<svg fill=\"#fff\">{src}</svg>"));
                        }
                        "typst" => {
                            // compile <src> <dst> ...
                            let src = args[1].clone();
                            let dst = args[2].clone();
                            assert!(self.has_file(&src), "compiler ran without {src}");
                            let body = self.read(&src).unwrap().to_string();
                            self.write(dst, format!("OUT[{body}]"));
                        }
                        "magick" => {
                            // convert ... <src.svg> <dst.png>
                            let src = args[args.len() - 2].clone();
                            let dst = args.last().unwrap().clone();
                            let body = self
                                .read(&src)
                                .ok_or(GuiError::ReadFile(src.clone()))?
                                .to_string();
                            self.write(dst, format!("PNG[{body}]"));
                        }
                        other => panic!("unexpected program {other}"),
                    }
                }
                Step::Recolor { src, dst, color } => {
                    let svg = match self.read(&src) {
                        Some(s) => s.to_string(),
                        None => return Err(GuiError::ReadFile(src)),
                    };
                    let colored = recolor_svg(&svg, &color);
                    self.write(dst, colored);
                }
            }
        }
        Ok(())
    }

    fn runs_of(&self, program: &str) -> usize {
        self.runs.iter().filter(|p| p.as_str() == program).count()
    }
}

#[test]
fn latex_svg_then_png_reuses_cache() {
    let mut world = MockWorld::default();
    let root = "cache";
    let dir = get_dir(root, equation_hash("x^2"));

    // first render: SVG, nothing cached yet
    let plan = render_plan(
        Backend::LaTeX,
        "x^2",
        &dir,
        "blue",
        ImageFormat::Svg,
        1000,
        world.dirs.contains(&dir),
        false,
    )
    .unwrap();
    world.execute(plan).unwrap();

    let tex = world.read(&format!("{dir}/eq.tex")).unwrap().to_string();
    assert!(tex.contains("x^2"));
    assert!(tex.starts_with("\\documentclass[12pt]{article}"));
    assert!(world.has_file(&format!("{dir}/eq.svg")));
    let blue = world.read(&format!("{dir}/blue_eq.svg")).unwrap().to_string();
    assert!(blue.contains("fill=\"blue\""));
    assert!(!blue.contains("#fff"));
    assert_eq!(world.runs_of("latex"), 1);
    assert_eq!(world.runs_of("dvisvgm"), 1);

    // second request: PNG of the same equation; the directory exists now
    let png_artifact = format!("{}/{}", dir, artifact_file_name("blue", ImageFormat::Png));
    let writes_before = world.writes.clone();
    let plan = render_plan(
        Backend::LaTeX,
        "x^2",
        &dir,
        "blue",
        ImageFormat::Png,
        1000,
        world.dirs.contains(&dir),
        world.has_file(&png_artifact),
    )
    .unwrap();
    world.execute(plan).unwrap();

    // the typesetting pipeline did not run again and eq.tex was not rewritten
    assert_eq!(world.runs_of("latex"), 1);
    assert_eq!(world.runs_of("dvisvgm"), 1);
    assert_eq!(world.runs_of("magick"), 1);
    let tex_writes = |ws: &Vec<String>| ws.iter().filter(|w| w.ends_with("eq.tex")).count();
    assert_eq!(tex_writes(&world.writes), tex_writes(&writes_before));
    assert_eq!(world.read(&format!("{dir}/eq.tex")).unwrap(), tex);

    // the PNG was produced from the colored SVG
    let png = world.read(&png_artifact).unwrap();
    assert!(png.starts_with("PNG["));
    assert!(png.contains("fill=\"blue\""));
}

#[test]
fn rendering_twice_yields_identical_bytes() {
    let run = || {
        let mut world = MockWorld::default();
        let dir = get_dir("cache", equation_hash("a+b"));
        let plan = render_plan(
            Backend::LaTeX,
            "a+b",
            &dir,
            "red",
            ImageFormat::Svg,
            1000,
            false,
            false,
        )
        .unwrap();
        world.execute(plan).unwrap();
        world.read(&format!("{dir}/red_eq.svg")).unwrap().to_string()
    };
    assert_eq!(run(), run());
}

#[test]
fn typst_render_produces_colored_artifact() {
    let mut world = MockWorld::default();
    world.dirs.push("session".to_string());
    let plan = render_plan(
        Backend::Typst,
        "x^2",
        "session",
        "blue",
        ImageFormat::Svg,
        1000,
        true,
        false,
    )
    .unwrap();
    world.execute(plan).unwrap();
    assert_eq!(world.runs_of("typst"), 1);
    let out = world.read("session/blue_eq.svg").unwrap();
    assert!(out.contains("fill: blue)"));
    assert!(out.contains("$ x^2 $"));
}

#[test]
fn empty_equation_spawns_no_process() {
    let mut world = MockWorld::default();
    let r = render_plan(Backend::LaTeX, "", "d", "red", ImageFormat::Svg, 1000, false, false);
    match r {
        Err(GuiError::EmptyInput(name)) => assert_eq!(name, "LaTeX"),
        other => panic!("expected the empty-input failure, got {other:?}"),
    }
    // no plan exists, so nothing runs
    assert!(world.runs.is_empty());
    assert!(world.files.is_empty());
    let _ = &mut world;
}

#[test]
fn recolor_failure_surfaces_as_read_error() {
    let mut world = MockWorld::default();
    // directory exists but holds no eq.svg: the cheap path fails on read
    world.dirs.push("d".to_string());
    let plan =
        render_plan(Backend::LaTeX, "x^2", "d", "red", ImageFormat::Svg, 1000, true, false)
            .unwrap();
    let r = world.execute(plan);
    assert_eq!(r, Err(GuiError::ReadFile("d/eq.svg".to_string())));
}
