//! The render error taxonomy.
//!
//! Every failure is a value, propagated to the caller and displayed; no
//! failure aborts the process and nothing is retried. Either the full
//! artifact is ready or the operation is reported failed — there is no
//! partial output.

use vstd::prelude::*;
use vstd::string::*;

use crate::backends::CommandError;
use crate::strutil::{i32_to_dec, spec_i32_dec, str_concat3};

verus! {

/// Why a render failed.
#[derive(Debug, Clone, PartialEq, Eq)]
pub enum GuiError {
    /// The submitted equation was empty; detected before any external
    /// process is spawned. Carries the backend's display name.
    EmptyInput(String),
    /// The cache directory could not be created.
    DirCreate,
    /// An intermediate or final artifact could not be read.
    ReadFile(String),
    /// An intermediate or final artifact could not be written.
    WriteFile(String),
    /// The finished artifact could not be copied to its destination.
    CopyFile(String, String),
    /// An external tool could not be started, or ran and failed.
    Command(CommandError),
}

impl core::convert::From<CommandError> for GuiError {
    /// A process failure wrapped as a render failure.
    fn from(e: CommandError) -> (r: Self)
        ensures
            r == GuiError::Command(e),
    {
        GuiError::Command(e)
    }
}

impl vstd::std_specs::convert::FromSpecImpl<CommandError> for GuiError {
    open spec fn obeys_from_spec() -> bool {
        true
    }

    open spec fn from_spec(e: CommandError) -> Self {
        GuiError::Command(e)
    }
}

/// The display text of a process failure.
pub open spec fn spec_command_error_message(e: CommandError) -> Seq<char> {
    match e {
        CommandError::ErrorSpawning(c) => "could not start command `"@ + c@ + "`"@,
        CommandError::Error { status, command, message } => command@ + " returned "@
            + spec_i32_dec(status as int) + ":\n"@ + message@,
    }
}

/// The display text of a render failure.
pub open spec fn spec_gui_error_message(e: GuiError) -> Seq<char> {
    match e {
        GuiError::EmptyInput(b) => "Enter a "@ + b@ + " expression!"@,
        GuiError::DirCreate => "could not create temporary directory"@,
        GuiError::ReadFile(p) => "could not read from `"@ + p@ + "`"@,
        GuiError::WriteFile(p) => "could not write to `"@ + p@ + "`"@,
        GuiError::CopyFile(a, b) => "could not copy file from `"@ + a@ + "` to `"@ + b@ + "`"@,
        GuiError::Command(c) => spec_command_error_message(c),
    }
}

impl CommandError {
    /// The text shown for this failure.
    pub fn message(&self) -> (r: String)
        ensures
            r@ == spec_command_error_message(*self),
    {
        match self {
            CommandError::ErrorSpawning(c) => str_concat3("could not start command `", c.as_str(), "`"),
            CommandError::Error { status, command, message } => {
                let mut out = command.clone();
                out.append(" returned ");
                let digits = i32_to_dec(*status);
                out.append(digits.as_str());
                out.append(":\n");
                out.append(message.as_str());
                proof {
                    assert(out@ =~= spec_command_error_message(*self));
                }
                out
            },
        }
    }
}

impl GuiError {
    /// The text shown for this failure.
    pub fn message(&self) -> (r: String)
        ensures
            r@ == spec_gui_error_message(*self),
    {
        match self {
            GuiError::EmptyInput(b) => str_concat3("Enter a ", b.as_str(), " expression!"),
            GuiError::DirCreate => "could not create temporary directory".to_owned(),
            GuiError::ReadFile(p) => str_concat3("could not read from `", p.as_str(), "`"),
            GuiError::WriteFile(p) => str_concat3("could not write to `", p.as_str(), "`"),
            GuiError::CopyFile(a, b) => {
                let mut out = str_concat3("could not copy file from `", a.as_str(), "` to `");
                out.append(b.as_str());
                out.append("`");
                proof {
                    assert(out@ =~= spec_gui_error_message(*self));
                }
                out
            },
            GuiError::Command(c) => c.message(),
        }
    }
}

} // verus!
