//! The two rendering backends, their static metadata, and the
//! classification of one external tool invocation's outcome.

use vstd::prelude::*;
use vstd::string::*;

use crate::diagnostics::{extract_message, spec_extract};

verus! {

/// The two rendering pipelines: the LaTeX toolchain (typesetter plus
/// DVI-to-SVG converter) and the Typst compiler.
#[derive(Copy, Clone, Eq, PartialEq, Structural, Hash, Debug)]
pub enum Backend {
    LaTeX,
    Typst,
}

/// The one-letter tag of a backend.
pub open spec fn spec_letter(b: Backend) -> Seq<char> {
    match b {
        Backend::LaTeX => "L"@,
        Backend::Typst => "T"@,
    }
}

/// The lowercase name of a backend.
pub open spec fn spec_name(b: Backend) -> Seq<char> {
    match b {
        Backend::LaTeX => "latex"@,
        Backend::Typst => "typst"@,
    }
}

/// The display name of a backend.
pub open spec fn spec_stylized(b: Backend) -> Seq<char> {
    match b {
        Backend::LaTeX => "LaTeX"@,
        Backend::Typst => "Typst"@,
    }
}

impl Backend {
    /// One-letter tag shown on the backend toggle.
    pub fn letter(self) -> (r: &'static str)
        ensures
            r@ == spec_letter(self),
    {
        match self {
            Self::LaTeX => "L",
            Self::Typst => "T",
        }
    }

    /// Lowercase name, used as the equation editor's placeholder text.
    pub fn name(self) -> (r: &'static str)
        ensures
            r@ == spec_name(self),
    {
        match self {
            Self::LaTeX => "latex",
            Self::Typst => "typst",
        }
    }

    /// Display name.
    pub fn stylized(self) -> (r: &'static str)
        ensures
            r@ == spec_stylized(self),
    {
        match self {
            Self::LaTeX => "LaTeX",
            Self::Typst => "Typst",
        }
    }

    /// The other backend.
    pub fn flip(self) -> (r: Backend)
        ensures
            r == (match self {
                Backend::LaTeX => Backend::Typst,
                Backend::Typst => Backend::LaTeX,
            }),
    {
        match self {
            Self::LaTeX => Self::Typst,
            Self::Typst => Self::LaTeX,
        }
    }
}

impl Default for Backend {
    /// Typst is the default backend.
    fn default() -> (r: Self)
        ensures
            r is Typst,
    {
        Self::Typst
    }
}

/// What one finished external process left behind: its exit code and its
/// captured output streams, decoded as text. The tools invoked here
/// (typesetter, converters, compiler) always emit valid UTF-8; the driver
/// that spawns them decodes under that documented assumption.
#[derive(Clone, Debug)]
pub struct CommandResult {
    /// The process's exit code; zero means success.
    pub code: i32,
    /// Captured standard output.
    pub stdout: String,
    /// Captured standard error.
    pub stderr: String,
}

/// Why one external process invocation failed.
#[derive(Clone, Debug, PartialEq, Eq)]
pub enum CommandError {
    /// The executable could not be started at all.
    ErrorSpawning(String),
    /// The tool ran but exited non-zero; `message` is the extracted
    /// diagnostic.
    Error { status: i32, command: String, message: String },
}

/// Classify the outcome of one external process invocation: `None` when
/// the executable could not be spawned, otherwise the exit code and the
/// captured streams. Success hands back stdout; failure carries the exit
/// code and the extracted diagnostic.
pub fn classify_run(command: &str, outcome: Option<CommandResult>) -> (r: Result<
    String,
    CommandError,
>)
    ensures
        match outcome {
            None => r matches Err(CommandError::ErrorSpawning(c)) && c@ == command@,
            Some(o) => if o.code == 0 {
                r matches Ok(s) && s@ == o.stdout@
            } else {
                r matches Err(CommandError::Error { status, command: c, message })
                    && status == o.code && c@ == command@ && message@ == spec_extract(
                    o.stdout@,
                    o.stderr@,
                )
            },
        },
{
    match outcome {
        None => Err(CommandError::ErrorSpawning(command.to_owned())),
        Some(o) => {
            if o.code == 0 {
                Ok(o.stdout)
            } else {
                let message = extract_message(o.stdout.as_str(), o.stderr.as_str());
                Err(
                    CommandError::Error {
                        status: o.code,
                        command: command.to_owned(),
                        message,
                    },
                )
            }
        },
    }
}

} // verus!
