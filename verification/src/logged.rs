//! Callables that describe themselves: each run leaves a line for the log.

use vstd::prelude::*;
use crate::callable::{verdict_of, Aborted, Callable};
use crate::error::CallableError;
use crate::format::{rendered, LoggingFormat, Piece};
use crate::represent::styled_or_placeholder;
use crate::{
    or_placeholder, preferred, Represent, Run, RunAndCallback, RunAndDebug, RunAndDisplay,
    RunAndReturn, Style,
};

verus! {

/// Whether a character is white space, as Unicode defines it.
pub open spec fn is_whitespace(c: char) -> bool {
    let code = c as u32;
    ||| 0x09 <= code <= 0x0D
    ||| code == 0x20
    ||| code == 0x85
    ||| code == 0xA0
    ||| code == 0x1680
    ||| 0x2000 <= code <= 0x200A
    ||| code == 0x2028
    ||| code == 0x2029
    ||| code == 0x202F
    ||| code == 0x205F
    ||| code == 0x3000
}

/// A text without its white space: the other characters, in their order.
pub open spec fn stripped(text: Seq<char>) -> Seq<char> {
    text.filter(|c: char| !is_whitespace(c))
}

fn whitespace(c: char) -> (white: bool)
    ensures
        white == is_whitespace(c),
{
    let code: u32 = c as u32;
    (0x09 <= code && code <= 0x0D) || code == 0x20 || code == 0x85 || code == 0xA0 || code
        == 0x1680 || (0x2000 <= code && code <= 0x200A) || code == 0x2028 || code == 0x2029 || code
        == 0x202F || code == 0x205F || code == 0x3000
}

/// Removes every white space character from a text.
pub fn strip_whitespace(text: &str) -> (result: String)
    ensures
        result@ == stripped(text@),
{
    let mut result = String::new();
    proof {
        reveal_with_fuel(Seq::filter, 2);
    }
    for c in iter: text.chars()
        invariant
            iter.seq() == text@,
            result@ == stripped(text@.take(iter.index() as int)),
    {
        proof {
            reveal_with_fuel(Seq::filter, 2);
            assert(text@.take(iter.index() + 1).drop_last() == text@.take(iter.index() as int));
            assert(text@.take(iter.index() + 1).last() == c);
        }
        if !whitespace(c) {
            result.push(c);
        }
    }
    proof {
        assert(text@.take(text@.len() as int) == text@);
    }
    result
}

/// The logging data of a callable: the text that stands for its handle and
/// the text that stands for its arguments.
#[derive(Debug, Clone)]
struct LoggingData {
    handle: String,
    arguments: String,
}

/// The line that a run left for the log: its characters, or why there are
/// none.
pub open spec fn line_view(line: Option<Result<String, CallableError>>) -> Option<
    Result<Seq<char>, CallableError>,
> {
    match line {
        Some(Ok(text)) => Some(Ok(text@)),
        Some(Err(error)) => Some(Err(error)),
        None => None,
    }
}

/// The text that stands for the outcome of a run in a log line: the text of
/// the value, or the message of the error.
pub open spec fn outcome_text<R: Represent>(result: Result<R, CallableError>) -> Seq<char> {
    match result {
        Ok(value) => or_placeholder(
            preferred(value.text(Style::Display), value.text(Style::Debug)),
        ),
        Err(error) => error.message(),
    }
}

/// A logged callable: a callable with the descriptions of its handle and of
/// its arguments, the format of its log line, and the number of its task.
///
/// Each run leaves its log line in the unit, where [`take_log`] finds it. A
/// line that cannot be rendered is left there as an error and changes
/// nothing about what the run returns.
///
/// [`take_log`]: LoggedCallable::take_log
#[derive(Debug)]
#[verifier::reject_recursive_types(A)]
#[verifier::reject_recursive_types(R)]
pub struct LoggedCallable<'a, A, R, F> where F: FnOnce(A) -> Result<R, Aborted> {
    callable: Callable<A, R, F>,
    logging_data: Option<LoggingData>,
    logging_format: Option<&'a LoggingFormat>,
    task_id: usize,
    log: Option<Result<String, CallableError>>,
}

pub type LoggedFunction<'a, A, R, F> = LoggedCallable<'a, A, R, F>;

pub type LoggedMethod<'a, A, R, F> = LoggedCallable<'a, A, R, F>;

pub type LoggedClosure<'a, A, R, F> = LoggedCallable<'a, A, R, F>;

impl<'a, A, R, F> std::ops::Deref for LoggedCallable<'a, A, R, F> where
    F: FnOnce(A) -> Result<R, Aborted>,
 {
    type Target = Callable<A, R, F>;

    fn deref(&self) -> (callable: &Callable<A, R, F>)
        ensures
            *callable == self.callable(),
    {
        &self.callable
    }
}

impl<'a, A, R, F> LoggedCallable<'a, A, R, F> where F: FnOnce(A) -> Result<R, Aborted> {
    /// The callable that is logged.
    pub closed spec fn callable(&self) -> Callable<A, R, F> {
        self.callable
    }

    /// The description of the handle, if one was given.
    pub closed spec fn handle_string(&self) -> Option<Seq<char>> {
        match self.logging_data {
            Some(data) => Some(data.handle@),
            None => None,
        }
    }

    /// The description of the arguments, if the unit carries descriptions.
    pub closed spec fn arguments_string(&self) -> Option<Seq<char>> {
        match self.logging_data {
            Some(data) => Some(data.arguments@),
            None => None,
        }
    }

    /// The pieces of the format that the unit refers to, if it refers to one.
    pub closed spec fn format(&self) -> Option<Seq<Piece>> {
        match self.logging_format {
            Some(format) => Some(format@),
            None => None,
        }
    }

    /// The number of the task.
    pub closed spec fn task(&self) -> usize {
        self.task_id
    }

    /// What the last run left for the log: nothing where no run has taken
    /// place since the log was taken, or where the unit has no format.
    pub closed spec fn log(&self) -> Option<Result<Seq<char>, CallableError>> {
        line_view(self.log)
    }

    /// The log line of a run with the given outcome: the format's tokens,
    /// each replaced by its text; or why the line cannot be rendered.
    pub open spec fn log_line(&self, output: Seq<char>) -> Result<Seq<char>, CallableError> {
        match self.format() {
            Some(pieces) => rendered(pieces, self.handle_string(), self.arguments_string(), output),
            None => Err(CallableError::CallableLoggingFormatMissing),
        }
    }

    /// What a run with the given outcome leaves for the log: the rendered
    /// line, and nothing where the unit has no format.
    pub open spec fn logged(&self, output: Seq<char>) -> Option<Result<Seq<char>, CallableError>> {
        if self.format() is Some {
            Some(self.log_line(output))
        } else {
            None
        }
    }

    /// Everything about the unit but its callable and its log is as in
    /// `other`.
    pub open spec fn same_logging(&self, other: &Self) -> bool {
        &&& self.handle_string() == other.handle_string()
        &&& self.arguments_string() == other.arguments_string()
        &&& self.format() == other.format()
        &&& self.task() == other.task()
    }

    /// Decorates a callable that carries no descriptions.
    pub fn wrap(callable: Callable<A, R, F>, task_id: usize) -> (unit: Self)
        ensures
            unit.callable() == callable,
            unit.handle_string() is None,
            unit.arguments_string() is None,
            unit.format() is None,
            unit.task() == task_id,
            unit.log() is None,
    {
        LoggedCallable {
            callable,
            logging_data: None,
            logging_format: None,
            task_id,
            log: None,
        }
    }

    /// Makes the unit render its log lines from the given format. The unit
    /// reads the format and does not own it.
    pub fn set_format(&mut self, logging_format: &'a LoggingFormat)
        ensures
            final(self).format() == Some(logging_format@),
            final(self).callable() == old(self).callable(),
            final(self).handle_string() == old(self).handle_string(),
            final(self).arguments_string() == old(self).arguments_string(),
            final(self).task() == old(self).task(),
            final(self).log() == old(self).log(),
    {
        self.logging_format = Some(logging_format);
    }

    /// The number of the task, by which the lines of one unit are told from
    /// those of another.
    pub fn task_id(&self) -> (task_id: usize)
        ensures
            task_id == self.task(),
    {
        self.task_id
    }

    /// Takes out what the last run left for the log.
    pub fn take_log(&mut self) -> (line: Option<Result<String, CallableError>>)
        ensures
            line_view(line) == old(self).log(),
            final(self).log() is None,
            final(self).callable() == old(self).callable(),
            final(self).same_logging(old(self)),
    {
        self.log.take()
    }
}

impl<'a, A, R, F> LoggedCallable<'a, A, R, F> where F: FnOnce(A) -> Result<R, Aborted> {
    /// A unit with the given handle and its description, with no arguments
    /// and an empty description of them, without a format, under the given
    /// task number.
    pub fn new(handle: F, handle_string: &str, task_id: usize) -> (unit: Self)
        ensures
            unit.callable().handle() == Some(handle),
            unit.callable().arguments() is None,
            unit.handle_string() == Some(handle_string@),
            unit.arguments_string() == Some(Seq::<char>::empty()),
            unit.format() is None,
            unit.task() == task_id,
            unit.log() is None,
    {
        LoggedCallable {
            callable: Callable::new(handle),
            logging_data: Some(
                LoggingData { handle: String::from_str(handle_string), arguments: String::new() },
            ),
            logging_format: None,
            task_id,
            log: None,
        }
    }

    /// Stores the arguments in the unit and, where the unit carries
    /// descriptions, their description without its white space.
    pub fn args(self, arguments: A, arguments_string: &str) -> (unit: Self)
        requires
            self.callable().accepts(arguments),
        ensures
            unit.callable().handle() == self.callable().handle(),
            unit.callable().arguments() == Some(arguments),
            unit.handle_string() == self.handle_string(),
            unit.arguments_string() == if self.handle_string() is Some {
                Some(stripped(arguments_string@))
            } else {
                None
            },
            unit.format() == self.format(),
            unit.task() == self.task(),
            unit.log() == self.log(),
    {
        let LoggedCallable { callable, logging_data, logging_format, task_id, log } = self;
        let logging_data = match logging_data {
            Some(data) => Some(
                LoggingData { handle: data.handle, arguments: strip_whitespace(arguments_string) },
            ),
            None => None,
        };
        LoggedCallable { callable: callable.args(arguments), logging_data, logging_format, task_id, log }
    }
}

/// How a logged callable is made: first the handle with its description,
/// then the arguments with theirs. The trait serves code that is written for
/// every kind of unit; a logged callable has the two functions of its own as
/// well.
pub trait LoggedCallableCreate<A, R, F>: Sized where F: FnOnce(A) -> Result<R, Aborted> {
    /// The handle that the unit holds.
    spec fn created_handle(&self) -> Option<F>;

    /// The argument bundle that the unit holds.
    spec fn created_arguments(&self) -> Option<A>;

    /// The description of the handle.
    spec fn created_handle_string(&self) -> Option<Seq<char>>;

    /// The description of the arguments.
    spec fn created_arguments_string(&self) -> Option<Seq<char>>;

    /// The number of the task.
    spec fn created_task(&self) -> usize;

    /// The format that the unit refers to.
    spec fn created_format(&self) -> Option<Seq<Piece>>;

    /// The log line that the unit holds.
    spec fn created_log(&self) -> Option<Result<Seq<char>, CallableError>>;

    /// A unit with the given handle and its description, with no arguments
    /// and an empty description of them, without a format, under the given
    /// task number.
    fn new(handle: F, handle_string: &str, task_id: usize) -> (unit: Self)
        ensures
            unit.created_handle() == Some(handle),
            unit.created_arguments() is None,
            unit.created_handle_string() == Some(handle_string@),
            unit.created_arguments_string() == Some(Seq::<char>::empty()),
            unit.created_task() == task_id,
            unit.created_format() is None,
            unit.created_log() is None,
    ;

    /// Stores the arguments in the unit and, where the unit carries
    /// descriptions, their description without its white space.
    fn args(self, arguments: A, arguments_string: &str) -> (unit: Self)
        requires
            self.created_handle() matches Some(handle) ==> call_requires(handle, (arguments,)),
        ensures
            unit.created_handle() == self.created_handle(),
            unit.created_arguments() == Some(arguments),
            unit.created_handle_string() == self.created_handle_string(),
            unit.created_arguments_string() == if self.created_handle_string() is Some {
                Some(stripped(arguments_string@))
            } else {
                None
            },
            unit.created_task() == self.created_task(),
            unit.created_format() == self.created_format(),
            unit.created_log() == self.created_log(),
    ;
}

impl<'a, A, R, F> LoggedCallableCreate<A, R, F> for LoggedCallable<'a, A, R, F> where
    F: FnOnce(A) -> Result<R, Aborted>,
 {
    open spec fn created_handle(&self) -> Option<F> {
        self.callable().handle()
    }

    open spec fn created_arguments(&self) -> Option<A> {
        self.callable().arguments()
    }

    open spec fn created_handle_string(&self) -> Option<Seq<char>> {
        self.handle_string()
    }

    open spec fn created_arguments_string(&self) -> Option<Seq<char>> {
        self.arguments_string()
    }

    open spec fn created_task(&self) -> usize {
        self.task()
    }

    open spec fn created_format(&self) -> Option<Seq<Piece>> {
        self.format()
    }

    open spec fn created_log(&self) -> Option<Result<Seq<char>, CallableError>> {
        self.log()
    }

    fn new(handle: F, handle_string: &str, task_id: usize) -> (unit: Self) {
        LoggedCallable::new(handle, handle_string, task_id)
    }

    fn args(self, arguments: A, arguments_string: &str) -> (unit: Self) {
        LoggedCallable::args(self, arguments, arguments_string)
    }
}

impl<'a, R, F> LoggedCallable<'a, (), R, F> where F: FnOnce(()) -> Result<R, Aborted> {
    /// A unit for a handle that takes no arguments: the empty bundle is
    /// armed from the start, and `()` describes it.
    pub fn nullary(handle: F, handle_string: &str, task_id: usize) -> (unit: Self)
        requires
            call_requires(handle, ((),)),
        ensures
            unit.callable().handle() == Some(handle),
            unit.callable().arguments() == Some(()),
            unit.handle_string() == Some(handle_string@),
            unit.arguments_string() == Some("()"@),
            unit.format() is None,
            unit.task() == task_id,
            unit.log() is None,
    {
        LoggedCallable {
            callable: Callable::nullary(handle),
            logging_data: Some(
                LoggingData {
                    handle: String::from_str(handle_string),
                    arguments: String::from_str("()"),
                },
            ),
            logging_format: None,
            task_id,
            log: None,
        }
    }
}

impl<'a, A, R, F> LoggedCallable<'a, A, R, F> where
    R: Represent,
    F: FnOnce(A) -> Result<R, Aborted>,
 {
    /// Renders the log line of a run that ended in `result`: each token of
    /// the format gives way to the description or to the text of the
    /// outcome that it stands for.
    ///
    /// Fails with `CallableLoggingFormatMissing` where the unit has no
    /// format, and with the error of the first token whose description is
    /// absent.
    pub fn generate_log(&self, result: &Result<R, CallableError>) -> (line: Result<
        String,
        CallableError,
    >)
        ensures
            match line {
                Ok(text) => self.log_line(outcome_text(*result)) == Ok::<Seq<char>, CallableError>(
                    text@,
                ),
                Err(error) => self.log_line(outcome_text(*result)) == Err::<
                    Seq<char>,
                    CallableError,
                >(error),
            },
    {
        let logging_format = match self.logging_format {
            Some(logging_format) => logging_format,
            None => {
                return Err(CallableError::CallableLoggingFormatMissing);
            },
        };
        let output_string = match result {
            Ok(inner) => inner.represent(),
            Err(inner) => inner.to_string(),
        };
        match &self.logging_data {
            Some(data) => logging_format.render(
                Some(data.handle.as_str()),
                Some(data.arguments.as_str()),
                output_string.as_str(),
            ),
            None => logging_format.render(None, None, output_string.as_str()),
        }
    }

    /// Leaves in the unit the log line of a run that ended in `result`, or
    /// nothing where the unit has no format.
    fn keep_log(&mut self, result: &Result<R, CallableError>)
        ensures
            final(self).log() == old(self).logged(outcome_text(*result)),
            final(self).callable() == old(self).callable(),
            final(self).same_logging(old(self)),
    {
        if self.logging_format.is_some() {
            let line = self.generate_log(result);
            self.log = Some(line);
        } else {
            self.log = None;
        }
    }
}

impl<'a, A, R, F> LoggedCallable<'a, A, R, F> where
    R: Represent,
    F: FnOnce(A) -> Result<R, Aborted>,
 {
    /// A run that ended in `result` has taken the unit to `after`: the
    /// callable has run as if it were not logged, the log line of the
    /// outcome is kept, and the rest is as it was.
    pub open spec fn ran(&self, after: &Self, result: Result<R, CallableError>) -> bool {
        &&& self.callable().may_return(result)
        &&& self.callable().consumed_into(&after.callable())
        &&& after.log() == self.logged(outcome_text(result))
        &&& after.same_logging(self)
    }
}

impl<'a, A, R, F> RunAndReturn for LoggedCallable<'a, A, R, F> where
    R: Represent,
    F: FnOnce(A) -> Result<R, Aborted>,
 {
    type ReturnType = R;

    open spec fn gives(&self, result: Result<R, CallableError>) -> bool {
        self.callable().may_return(result)
    }

    /// Runs the callable once, keeps the log line of the outcome, and
    /// returns what the callable returned, whatever became of the line.
    fn run_and_return(&mut self) -> (result: Result<R, CallableError>)
        ensures
            old(self).ran(final(self), result),
    {
        let result = self.callable.run_and_return();
        self.keep_log(&result);
        result
    }
}

impl<'a, A, R, F> Run for LoggedCallable<'a, A, R, F> where
    R: Represent,
    F: FnOnce(A) -> Result<R, Aborted>,
 {
    open spec fn yields(&self, verdict: Result<(), CallableError>) -> bool {
        exists|result: Result<R, CallableError>| #[trigger]
            self.callable().may_return(result) && verdict == verdict_of(result)
    }

    /// Runs the callable once, keeps the log line of the outcome, and says
    /// whether the run went through, whatever became of the line.
    fn run(&mut self) -> (verdict: Result<(), CallableError>)
        ensures
            exists|result: Result<R, CallableError>| #[trigger]
                old(self).ran(final(self), result) && verdict == verdict_of(result),
    {
        let result = self.callable.run_and_return();
        self.keep_log(&result);
        proof {
            assert(old(self).ran(self, result));
            assert(old(self).gives(result));
        }
        match result {
            Ok(_inner) => Ok(()),
            Err(error) => Err(error),
        }
    }
}

impl<'a, A, R, F> LoggedCallable<'a, A, R, F> where
    R: Represent,
    F: FnOnce(A) -> Result<R, Aborted>,
 {
    /// Runs the callable once, keeps the log line of the outcome, and hands
    /// what the callable returned to the callback. The callback is not
    /// called where the run fails.
    ///
    /// This is `RunAndCallback::run_and_then`, with what is owed to the
    /// callback said of the callable itself.
    pub fn run_and_then<C: FnOnce(R) -> ()>(&mut self, callback: C) -> (verdict: Result<
        (),
        CallableError,
    >)
        requires
            forall|value: R| #[trigger]
                old(self).callable().may_return(Ok(value)) ==> call_requires(callback, (value,)),
        ensures
            exists|result: Result<R, CallableError>| #[trigger]
                old(self).ran(final(self), result) && match verdict {
                    Ok(done) => result matches Ok(value) && call_ensures(callback, (value,), done),
                    Err(error) => result == Err::<R, CallableError>(error),
                },
    {
        let result = self.callable.run_and_return();
        self.keep_log(&result);
        proof {
            assert(old(self).ran(self, result));
        }
        match result {
            Ok(inner) => Ok(callback(inner)),
            Err(inner) => Err(inner),
        }
    }
}

impl<'a, A, R, F> RunAndCallback for LoggedCallable<'a, A, R, F> where
    R: Represent,
    F: FnOnce(A) -> Result<R, Aborted>,
 {
    fn run_and_then<C: FnOnce(R) -> ()>(&mut self, callback: C) -> (verdict: Result<
        (),
        CallableError,
    >)
        ensures
            exists|result: Result<R, CallableError>| #[trigger]
                old(self).ran(final(self), result) && match verdict {
                    Ok(done) => result matches Ok(value) && call_ensures(callback, (value,), done),
                    Err(error) => result == Err::<R, CallableError>(error),
                },
    {
        proof {
            assert forall|value: R| #[trigger]
                old(self).callable().may_return(Ok(value)) implies call_requires(
                callback,
                (value,),
            ) by {
                assert(old(self).gives(Ok(value)));
            }
        }
        let verdict = LoggedCallable::run_and_then(self, callback);
        proof {
            let result = choose|result: Result<R, CallableError>| #[trigger]
                old(self).ran(self, result) && match verdict {
                    Ok(done) => result matches Ok(value) && call_ensures(callback, (value,), done),
                    Err(error) => result == Err::<R, CallableError>(error),
                };
            assert(old(self).gives(result));
        }
        verdict
    }
}

impl<'a, A, R, F> RunAndDebug for LoggedCallable<'a, A, R, F> where
    R: Represent,
    F: FnOnce(A) -> Result<R, Aborted>,
 {
    /// Runs the callable once, keeps the log line of the outcome, and
    /// returns the debug text of what the callable returned.
    fn run_and_debug(&mut self) -> (text: Result<String, CallableError>)
        ensures
            exists|result: Result<R, CallableError>| #[trigger]
                old(self).ran(final(self), result) && match text {
                    Ok(text) => result matches Ok(value) && text@ == or_placeholder(
                        value.text(Style::Debug),
                    ),
                    Err(error) => result == Err::<R, CallableError>(error),
                },
    {
        let result = self.callable.run_and_return();
        self.keep_log(&result);
        proof {
            assert(old(self).ran(self, result));
            assert(old(self).gives(result));
        }
        match result {
            Ok(inner) => Ok(styled_or_placeholder(&inner, Style::Debug)),
            Err(inner) => Err(inner),
        }
    }
}

impl<'a, A, R, F> RunAndDisplay for LoggedCallable<'a, A, R, F> where
    R: Represent,
    F: FnOnce(A) -> Result<R, Aborted>,
 {
    /// Runs the callable once, keeps the log line of the outcome, and
    /// returns the display text of what the callable returned.
    fn run_and_display(&mut self) -> (text: Result<String, CallableError>)
        ensures
            exists|result: Result<R, CallableError>| #[trigger]
                old(self).ran(final(self), result) && match text {
                    Ok(text) => result matches Ok(value) && text@ == or_placeholder(
                        value.text(Style::Display),
                    ),
                    Err(error) => result == Err::<R, CallableError>(error),
                },
    {
        let result = self.callable.run_and_return();
        self.keep_log(&result);
        proof {
            assert(old(self).ran(self, result));
            assert(old(self).gives(result));
        }
        match result {
            Ok(inner) => Ok(styled_or_placeholder(&inner, Style::Display)),
            Err(inner) => Err(inner),
        }
    }
}

/// Logging does not interfere: a logged run returns what the run of the
/// callable alone may return, and leaves the callable as that run does. This
/// holds whether or not the log line could be rendered. Without a format the
/// run leaves no line, and no error in its place.
pub proof fn lemma_logging_does_not_interfere<'a, A, R, F>(
    before: LoggedCallable<'a, A, R, F>,
    after: LoggedCallable<'a, A, R, F>,
    result: Result<R, CallableError>,
) where R: Represent, F: FnOnce(A) -> Result<R, Aborted>
    requires
        before.ran(&after, result),
    ensures
        before.callable().may_return(result),
        before.callable().consumed_into(&after.callable()),
        before.format() is None ==> after.log() is None,
        before.format() is Some ==> after.log() == Some(before.log_line(outcome_text(result))),
{
}

/// The contracts of the run traits, spelled out for a logged callable: what
/// the traits say that a run gives or yields is what the callable in it may
/// return.
pub proof fn lemma_logged_callable_gives<'a, A, R, F>(unit: LoggedCallable<'a, A, R, F>) where
    R: Represent,
    F: FnOnce(A) -> Result<R, Aborted>,

    ensures
        forall|result: Result<R, CallableError>| #[trigger]
            unit.gives(result) <==> unit.callable().may_return(result),
        forall|verdict: Result<(), CallableError>| #[trigger]
            unit.yields(verdict) <==> exists|result: Result<R, CallableError>| #[trigger]
                unit.callable().may_return(result) && verdict == verdict_of(result),
{
}

} // verus!
