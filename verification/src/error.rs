//! The ways in which a run, or the rendering of its log line, can fail.

use vstd::prelude::*;
use crate::{Represent, Style};

verus! {

/// Why a run, or the rendering of its log line, did not go through.
#[derive(Debug, Clone, Copy, PartialEq, Eq, Structural)]
pub enum CallableError {
    /// No handle is armed: none was given, or a run has moved it out.
    CallableHandleMissing,
    /// No argument bundle is armed: none was given, or a run has moved it out.
    CallableArgumentsMissing,
    /// The handle aborted instead of returning.
    CallablePanicked,
    /// A log line asks for the description of the handle, and there is none.
    CallableHandleStringMissing,
    /// A log line asks for the description of the arguments, and there is none.
    CallableArgumentStringMissing,
    /// A log line was asked for, and no format says what it holds.
    CallableLoggingFormatMissing,
}

impl CallableError {
    /// The sentence that tells a reader what went wrong.
    pub open spec fn message(self) -> Seq<char> {
        match self {
            CallableError::CallableHandleMissing =>
                "Callable handle missing. Either it was not provided, or was moved during a previous method call"@,
            CallableError::CallableArgumentsMissing =>
                "Callable arguments missing. Either they were not provided, or were moved during a previous method call"@,
            CallableError::CallablePanicked => "Callable panicked"@,
            CallableError::CallableHandleStringMissing =>
                "Callable handle string missing. It is necessary for logging"@,
            CallableError::CallableArgumentStringMissing =>
                "Callable argument string missing. It is necessary for logging"@,
            CallableError::CallableLoggingFormatMissing =>
                "Callable logging format missing. It is necessary for logging"@,
        }
    }

    /// The name of the variant, as a derived `Debug` prints it.
    pub open spec fn name(self) -> Seq<char> {
        match self {
            CallableError::CallableHandleMissing => "CallableHandleMissing"@,
            CallableError::CallableArgumentsMissing => "CallableArgumentsMissing"@,
            CallableError::CallablePanicked => "CallablePanicked"@,
            CallableError::CallableHandleStringMissing => "CallableHandleStringMissing"@,
            CallableError::CallableArgumentStringMissing => "CallableArgumentStringMissing"@,
            CallableError::CallableLoggingFormatMissing => "CallableLoggingFormatMissing"@,
        }
    }

    /// Writes the error out for a reader.
    pub fn to_string(&self) -> (text: String)
        ensures
            text@ == self.message(),
    {
        match self {
            CallableError::CallableHandleMissing => String::from_str(
                "Callable handle missing. Either it was not provided, or was moved during a previous method call",
            ),
            CallableError::CallableArgumentsMissing => String::from_str(
                "Callable arguments missing. Either they were not provided, or were moved during a previous method call",
            ),
            CallableError::CallablePanicked => String::from_str("Callable panicked"),
            CallableError::CallableHandleStringMissing => String::from_str(
                "Callable handle string missing. It is necessary for logging",
            ),
            CallableError::CallableArgumentStringMissing => String::from_str(
                "Callable argument string missing. It is necessary for logging",
            ),
            CallableError::CallableLoggingFormatMissing => String::from_str(
                "Callable logging format missing. It is necessary for logging",
            ),
        }
    }
}

impl Represent for CallableError {
    /// An error displays as its message; its debug text is the name of the
    /// variant.
    open spec fn text(&self, style: Style) -> Option<Seq<char>> {
        match style {
            Style::Display => Some(self.message()),
            Style::Debug => Some(self.name()),
        }
    }

    fn styled(&self, style: Style) -> (text: Option<String>) {
        match style {
            Style::Display => Some(self.to_string()),
            Style::Debug => Some(
                match self {
                    CallableError::CallableHandleMissing => String::from_str("CallableHandleMissing"),
                    CallableError::CallableArgumentsMissing => String::from_str(
                        "CallableArgumentsMissing",
                    ),
                    CallableError::CallablePanicked => String::from_str("CallablePanicked"),
                    CallableError::CallableHandleStringMissing => String::from_str(
                        "CallableHandleStringMissing",
                    ),
                    CallableError::CallableArgumentStringMissing => String::from_str(
                        "CallableArgumentStringMissing",
                    ),
                    CallableError::CallableLoggingFormatMissing => String::from_str(
                        "CallableLoggingFormatMissing",
                    ),
                },
            ),
        }
    }
}

} // verus!
