//! `running` runs *callables* (functions and closures) at most once, turns
//! their failures into values, and renders a line of text about each run.
//!
//! A [`callable::Callable`] owns a handle and its argument bundle and hands
//! both over in a single invocation. A [`logged::LoggedCallable`] adds a
//! description of the handle and of the arguments, and renders one line per
//! run from a [`format::LoggingFormat`]. A [`runnable::Job`] runs several
//! such units in the order in which they were queued.

use vstd::prelude::*;
use crate::error::CallableError;

pub mod callable;
pub mod error;
pub mod format;
pub mod log;
pub mod logged;
pub mod represent;
pub mod runnable;
pub mod task;

pub use crate::task::generate_task_id;

verus! {

/// The two ways in which a value can be turned into text.
#[derive(Debug, Clone, Copy, PartialEq, Eq, Structural)]
pub enum Style {
    /// The text meant for the user of a program.
    Display,
    /// The text meant for the author of a program.
    Debug,
}

/// The characters of an optional string.
pub open spec fn characters(text: Option<String>) -> Option<Seq<char>> {
    match text {
        Some(text) => Some(text@),
        None => None,
    }
}

/// The text that is preferred of the two that a value may have: the display
/// text, else the debug text, and `None` where there is neither.
pub open spec fn preferred(display: Option<Seq<char>>, debug: Option<Seq<char>>) -> Option<
    Seq<char>,
> {
    if display is Some {
        display
    } else {
        debug
    }
}

/// The given text, or the empty text that stands in for a missing one.
pub open spec fn or_placeholder(text: Option<Seq<char>>) -> Seq<char> {
    match text {
        Some(text) => text,
        None => Seq::empty(),
    }
}

/// Values that may have a textual form.
pub trait Represent: Sized {
    /// The text of the value in the given style, or `None` where its type
    /// has no text in that style.
    spec fn text(&self, style: Style) -> Option<Seq<char>>;

    /// Writes the value out in the given style.
    fn styled(&self, style: Style) -> (text: Option<String>)
        ensures
            characters(text) == self.text(style),
    ;

    /// The text that stands for the value in a log line: its display text,
    /// else its debug text, else the empty text.
    fn represent(&self) -> (text: String)
        ensures
            text@ == or_placeholder(preferred(self.text(Style::Display), self.text(Style::Debug))),
    {
        match self.styled(Style::Display) {
            Some(text) => text,
            None => match self.styled(Style::Debug) {
                Some(text) => text,
                None => String::new(),
            },
        }
    }
}

/// The textual form of a value, where its type has one: the display text if
/// there is one, the debug text otherwise.
pub fn try_string_from<T: Represent>(value: &T) -> (text: Option<String>)
    ensures
        characters(text) == preferred(value.text(Style::Display), value.text(Style::Debug)),
{
    match value.styled(Style::Display) {
        Some(text) => Some(text),
        None => value.styled(Style::Debug),
    }
}

/// Entities that can be executed (or run): functions, closures, or a set of
/// them.
pub trait Run {
    /// The verdicts that a run from this state may give.
    spec fn yields(&self, verdict: Result<(), CallableError>) -> bool;

    /// Runs the entity and says whether it went through.
    fn run(&mut self) -> (verdict: Result<(), CallableError>)
        ensures
            old(self).yields(verdict),
    ;
}

/// Does what [`Run`] does, but hands back what the entity returned.
pub trait RunAndReturn {
    type ReturnType;

    /// The results that a run from this state may give.
    spec fn gives(&self, result: Result<Self::ReturnType, CallableError>) -> bool;

    /// Runs the entity and returns its value.
    fn run_and_return(&mut self) -> (result: Result<Self::ReturnType, CallableError>)
        ensures
            old(self).gives(result),
    ;
}

/// Does what [`Run`] does, but hands the returned value to a callback. The
/// callback is not called where the run fails.
pub trait RunAndCallback: RunAndReturn {
    fn run_and_then<C: FnOnce(Self::ReturnType) -> ()>(&mut self, callback: C) -> (verdict: Result<
        (),
        CallableError,
    >)
        requires
            forall|value: Self::ReturnType| #[trigger]
                old(self).gives(Ok(value)) ==> call_requires(callback, (value,)),
        ensures
            match verdict {
                Ok(done) => exists|value: Self::ReturnType| #[trigger]
                    old(self).gives(Ok(value)) && call_ensures(callback, (value,), done),
                Err(error) => old(self).gives(Err(error)),
            },
    ;
}

/// Does what [`Run`] does, but returns the debug text of the returned value;
/// the empty text where its type has none.
pub trait RunAndDebug: RunAndReturn where Self::ReturnType: Represent {
    fn run_and_debug(&mut self) -> (text: Result<String, CallableError>)
        ensures
            match text {
                Ok(text) => exists|value: Self::ReturnType| #[trigger]
                    old(self).gives(Ok(value)) && text@ == or_placeholder(
                        value.text(Style::Debug),
                    ),
                Err(error) => old(self).gives(Err(error)),
            },
    ;
}

/// Does what [`Run`] does, but returns the display text of the returned
/// value; the empty text where its type has none.
pub trait RunAndDisplay: RunAndReturn where Self::ReturnType: Represent {
    fn run_and_display(&mut self) -> (text: Result<String, CallableError>)
        ensures
            match text {
                Ok(text) => exists|value: Self::ReturnType| #[trigger]
                    old(self).gives(Ok(value)) && text@ == or_placeholder(
                        value.text(Style::Display),
                    ),
                Err(error) => old(self).gives(Err(error)),
            },
    ;
}

} // verus!
