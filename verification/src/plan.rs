//! Render plans.
//!
//! A backend decides *what* to do as a sequence of steps over plain
//! values; an unverified driver *performs* the steps (directory creation,
//! file writes, process spawning) and stops at the first failure. Keeping
//! the decisions here and the effects there removes any reliance on the
//! process-global working directory: every path in a step is already
//! joined to its directory.

use vstd::prelude::*;

verus! {

/// One step of a render plan, to be performed in order; a step's failure
/// aborts the steps after it.
#[derive(Debug, Clone, PartialEq, Eq)]
pub enum Step {
    /// Create this directory; fails when it already exists.
    CreateDir { path: String },
    /// Write a text file, replacing any previous one.
    WriteFile { path: String, contents: String },
    /// Spawn an external program with these arguments and wait for it.
    Run { program: String, args: Vec<String> },
    /// Read the SVG at `src`, substitute its fill placeholder by `color`,
    /// and write the result to `dst`, leaving `src` as it was.
    Recolor { src: String, dst: String, color: String },
}

/// The mathematical shape of a step: every text as a character sequence.
#[verifier::ext_equal]
pub enum StepView {
    CreateDir { path: Seq<char> },
    WriteFile { path: Seq<char>, contents: Seq<char> },
    Run { program: Seq<char>, args: Seq<Seq<char>> },
    Recolor { src: Seq<char>, dst: Seq<char>, color: Seq<char> },
}

impl View for Step {
    type V = StepView;

    open spec fn view(&self) -> StepView {
        match self {
            Step::CreateDir { path } => StepView::CreateDir { path: path@ },
            Step::WriteFile { path, contents } => StepView::WriteFile {
                path: path@,
                contents: contents@,
            },
            Step::Run { program, args } => StepView::Run {
                program: program@,
                args: args.deep_view(),
            },
            Step::Recolor { src, dst, color } => StepView::Recolor {
                src: src@,
                dst: dst@,
                color: color@,
            },
        }
    }
}

impl DeepView for Step {
    type V = StepView;

    open spec fn deep_view(&self) -> StepView {
        self.view()
    }
}

} // verus!
