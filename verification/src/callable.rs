//! Units that run a callable at most once.
//!
//! A unit holds a guarded handle: a function that returns `Err(Aborted)`
//! where the invocation that it stands for did not return. To catch a panic
//! is the business of the program that makes the handle; a unit turns the
//! report into `CallablePanicked` and goes on.

use vstd::prelude::*;
use std::marker::PhantomData;
use crate::error::CallableError;
use crate::represent::styled_or_placeholder;
use crate::{
    or_placeholder, Represent, Run, RunAndCallback, RunAndDebug, RunAndDisplay, RunAndReturn, Style,
};

verus! {

/// What a guarded handle returns in place of a value when the invocation was
/// cut short: the handle aborted, and the boundary around it caught that.
#[derive(Debug, Clone, Copy, PartialEq, Eq, Structural)]
pub struct Aborted;

/// Stores the minimum information needed to define a callable: the handle
/// and the argument bundle, each until a run moves it out.
///
/// Where both are there, the handle accepts the arguments.
#[derive(Debug)]
#[verifier::reject_recursive_types(A)]
#[verifier::reject_recursive_types(R)]
pub struct AtomicCallable<A, R, F> where F: FnOnce(A) -> Result<R, Aborted> {
    handle: Option<F>,
    arguments: Option<A>,
    marker: PhantomData<R>,
}

impl<A, R, F> AtomicCallable<A, R, F> where F: FnOnce(A) -> Result<R, Aborted> {
    /// Where a handle and arguments are armed, the handle accepts them.
    #[verifier::type_invariant]
    spec fn invocable(&self) -> bool {
        self.handle is Some && self.arguments is Some ==> call_requires(
            self.handle->0,
            (self.arguments->0,),
        )
    }

    /// The handle that is armed, if any.
    pub closed spec fn handle(&self) -> Option<F> {
        self.handle
    }

    /// The argument bundle that is armed, if any.
    pub closed spec fn arguments(&self) -> Option<A> {
        self.arguments
    }

    /// Whether a handle is armed.
    pub fn has_handle(&self) -> (armed: bool)
        ensures
            armed == self.handle() is Some,
    {
        self.handle.is_some()
    }

    /// Whether an argument bundle is armed.
    pub fn has_arguments(&self) -> (armed: bool)
        ensures
            armed == self.arguments() is Some,
    {
        self.arguments.is_some()
    }
}

/// A callable object, like a function, a method or a closure, together with
/// the arguments of its one invocation.
///
/// The handle is guarded: it returns `Err(Aborted)` where the invocation
/// aborted, so that a crash reaches the unit as a value.
#[derive(Debug)]
#[verifier::reject_recursive_types(A)]
#[verifier::reject_recursive_types(R)]
pub struct Callable<A, R, F> where F: FnOnce(A) -> Result<R, Aborted> {
    atomic_callable: AtomicCallable<A, R, F>,
}

pub type Function<A, R, F> = Callable<A, R, F>;

pub type Method<A, R, F> = Callable<A, R, F>;

pub type Closure<A, R, F> = Callable<A, R, F>;

impl<A, R, F> std::ops::Deref for Callable<A, R, F> where F: FnOnce(A) -> Result<R, Aborted> {
    type Target = AtomicCallable<A, R, F>;

    fn deref(&self) -> (atomic: &AtomicCallable<A, R, F>)
        ensures
            atomic.handle() == self.handle(),
            atomic.arguments() == self.arguments(),
    {
        &self.atomic_callable
    }
}

/// What the boundary around an invocation reported, turned into what a run
/// returns: an abort becomes `CallablePanicked`, anything else stays.
pub open spec fn composed<R, P>(call_result: Result<Result<R, CallableError>, P>) -> Result<
    R,
    CallableError,
> {
    match call_result {
        Ok(inner) => inner,
        Err(_) => Err(CallableError::CallablePanicked),
    }
}

/// The outcome of an invocation as the boundary around it reports it: a
/// value is wrapped once more, an abort stays.
pub open spec fn reported<R>(outcome: Result<R, Aborted>) -> Result<
    Result<R, CallableError>,
    Aborted,
> {
    match outcome {
        Ok(value) => Ok(Ok(value)),
        Err(aborted) => Err(aborted),
    }
}

/// What becomes of the outcome of an invocation: a value stays, an abort
/// becomes `CallablePanicked`.
pub open spec fn settled<R>(outcome: Result<R, Aborted>) -> Result<R, CallableError> {
    match outcome {
        Ok(value) => Ok(value),
        Err(_) => Err(CallableError::CallablePanicked),
    }
}

/// A result without its value.
pub open spec fn verdict_of<R>(result: Result<R, CallableError>) -> Result<(), CallableError> {
    match result {
        Ok(_) => Ok(()),
        Err(error) => Err(error),
    }
}

impl<A, R, F> Callable<A, R, F> where F: FnOnce(A) -> Result<R, Aborted> {
    /// The handle that is armed, if any.
    pub closed spec fn handle(&self) -> Option<F> {
        self.atomic_callable.handle()
    }

    /// The argument bundle that is armed, if any.
    pub closed spec fn arguments(&self) -> Option<A> {
        self.atomic_callable.arguments()
    }

    /// A unit is armed while it holds both a handle and an argument bundle.
    pub open spec fn armed(&self) -> bool {
        self.handle() is Some && self.arguments() is Some
    }

    /// The error with which a run is refused before the handle is touched:
    /// the arguments are looked for first, then the handle.
    pub open spec fn refusal(&self) -> Option<CallableError> {
        if self.arguments() is None {
            Some(CallableError::CallableArgumentsMissing)
        } else if self.handle() is None {
            Some(CallableError::CallableHandleMissing)
        } else {
            None
        }
    }

    /// The handle, if one is armed, accepts the given arguments.
    pub open spec fn accepts(&self, arguments: A) -> bool {
        self.handle() matches Some(handle) ==> call_requires(handle, (arguments,))
    }

    /// What the boundary may report of one run of this unit: the refusal; or
    /// what has become of an outcome that the handle may have on the
    /// arguments.
    pub open spec fn may_report(&self, report: Result<Result<R, CallableError>, Aborted>) -> bool {
        match self.refusal() {
            Some(error) => report == Ok::<Result<R, CallableError>, Aborted>(Err(error)),
            None => exists|outcome: Result<R, Aborted>| #[trigger]
                call_ensures(self.handle()->0, (self.arguments()->0,), outcome) && report
                    == reported(outcome),
        }
    }

    /// What a run of this unit may return: the refusal; or what has become
    /// of an outcome that the handle may have on the arguments.
    pub open spec fn may_return(&self, result: Result<R, CallableError>) -> bool {
        match self.refusal() {
            Some(error) => result == Err::<R, CallableError>(error),
            None => exists|outcome: Result<R, Aborted>| #[trigger]
                call_ensures(self.handle()->0, (self.arguments()->0,), outcome) && result
                    == settled(outcome),
        }
    }

    /// The state in which a run that consumes the handle leaves the unit:
    /// the arguments are gone, and so is the handle unless the run was
    /// refused for want of arguments.
    pub open spec fn consumed_into(&self, after: &Self) -> bool {
        &&& after.arguments() is None
        &&& after.handle() == if self.arguments() is Some {
            None
        } else {
            self.handle()
        }
    }

    /// The state in which a run that borrows the handle leaves the unit: the
    /// arguments are gone, and a handle is armed if one was.
    pub open spec fn retained_into(&self, after: &Self) -> bool {
        &&& after.arguments() is None
        &&& after.handle() is Some <==> self.handle() is Some
    }

    /// A unit with the given handle and no arguments.
    pub fn new(handle: F) -> (unit: Self)
        ensures
            unit.handle() == Some(handle),
            unit.arguments() is None,
    {
        Callable {
            atomic_callable: AtomicCallable {
                handle: Some(handle),
                arguments: None,
                marker: PhantomData,
            },
        }
    }

    /// Stores the arguments in the unit, in place of any that it held.
    pub fn args(self, arguments: A) -> (unit: Self)
        requires
            self.accepts(arguments),
        ensures
            unit.handle() == self.handle(),
            unit.arguments() == Some(arguments),
    {
        let mut unit = self;
        unit.atomic_callable.arguments = Some(arguments);
        unit
    }

    /// Turns what the boundary around an invocation reported into what a run
    /// returns.
    pub fn compose_run_result<P>(call_result: Result<Result<R, CallableError>, P>) -> (result:
        Result<R, CallableError>)
        ensures
            result == composed(call_result),
    {
        match call_result {
            Ok(inner) => inner,
            Err(_inner) => Err(CallableError::CallablePanicked),
        }
    }

    /// Moves the arguments out of the unit.
    fn take_arguments(&mut self) -> (arguments: Option<A>)
        ensures
            arguments == old(self).arguments(),
            final(self).arguments() is None,
            final(self).handle() == old(self).handle(),
            arguments matches Some(arguments) ==> old(self).accepts(arguments),
    {
        proof {
            use_type_invariant(&self.atomic_callable);
        }
        let mut arguments: Option<A> = None;
        core::mem::swap(&mut self.atomic_callable.arguments, &mut arguments);
        arguments
    }

    /// Moves the handle out of a unit without arguments.
    fn take_handle(&mut self) -> (handle: Option<F>)
        requires
            old(self).arguments() is None,
        ensures
            handle == old(self).handle(),
            final(self).handle() is None,
            final(self).arguments() is None,
    {
        let mut handle: Option<F> = None;
        core::mem::swap(&mut self.atomic_callable.handle, &mut handle);
        handle
    }

    /// Runs the unit once, consuming the handle, and reports as the boundary
    /// around the invocation does.
    pub fn inner_run_once(&mut self) -> (report: Result<Result<R, CallableError>, Aborted>)
        ensures
            old(self).may_report(report),
            old(self).consumed_into(final(self)),
    {
        let arguments: A = match self.take_arguments() {
            Some(arguments) => arguments,
            None => {
                return Ok(Err(CallableError::CallableArgumentsMissing));
            },
        };
        let handle: F = match self.take_handle() {
            Some(handle) => handle,
            None => {
                return Ok(Err(CallableError::CallableHandleMissing));
            },
        };
        match handle(arguments) {
            Ok(value) => Ok(Ok(value)),
            Err(aborted) => Err(aborted),
        }
    }
}

impl<A, R, F> Callable<A, R, F> where F: FnMut(A) -> Result<R, Aborted> {
    /// Runs the unit once through a mutable borrow of the handle, which stays
    /// armed, and reports as the boundary around the invocation does.
    pub fn inner_run_mut(&mut self) -> (report: Result<Result<R, CallableError>, Aborted>)
        ensures
            old(self).may_report(report),
            old(self).retained_into(final(self)),
    {
        let arguments: A = match self.take_arguments() {
            Some(arguments) => arguments,
            None => {
                return Ok(Err(CallableError::CallableArgumentsMissing));
            },
        };
        let mut handle: F = match self.take_handle() {
            Some(handle) => handle,
            None => {
                return Ok(Err(CallableError::CallableHandleMissing));
            },
        };
        let outcome = handle(arguments);
        self.atomic_callable.handle = Some(handle);
        match outcome {
            Ok(value) => Ok(Ok(value)),
            Err(aborted) => Err(aborted),
        }
    }
}

impl<A, R, F> Callable<A, R, F> where F: Fn(A) -> Result<R, Aborted> {
    /// Runs the unit once through a shared borrow of the handle, which stays
    /// armed as it is, and reports as the boundary around the invocation
    /// does.
    pub fn inner_run(&mut self) -> (report: Result<Result<R, CallableError>, Aborted>)
        ensures
            old(self).may_report(report),
            final(self).arguments() is None,
            final(self).handle() == old(self).handle(),
    {
        let arguments: A = match self.take_arguments() {
            Some(arguments) => arguments,
            None => {
                return Ok(Err(CallableError::CallableArgumentsMissing));
            },
        };
        match self.atomic_callable.handle.as_ref() {
            Some(handle) => match handle(arguments) {
                Ok(value) => Ok(Ok(value)),
                Err(aborted) => Err(aborted),
            },
            None => Ok(Err(CallableError::CallableHandleMissing)),
        }
    }
}

impl<R, F> Callable<(), R, F> where F: FnOnce(()) -> Result<R, Aborted> {
    /// A unit for a handle that takes no arguments: the empty bundle is
    /// armed from the start.
    pub fn nullary(handle: F) -> (unit: Self)
        requires
            call_requires(handle, ((),)),
        ensures
            unit.handle() == Some(handle),
            unit.arguments() == Some(()),
    {
        Callable {
            atomic_callable: AtomicCallable {
                handle: Some(handle),
                arguments: Some(()),
                marker: PhantomData,
            },
        }
    }
}

/// How a callable is made: first the handle, then the arguments. The trait
/// serves code that is written for every kind of unit; a callable has the
/// two functions of its own as well.
pub trait CallableCreate<A, R, F>: Sized where F: FnOnce(A) -> Result<R, Aborted> {
    /// The handle that the unit holds.
    spec fn created_handle(&self) -> Option<F>;

    /// The argument bundle that the unit holds.
    spec fn created_arguments(&self) -> Option<A>;

    /// A unit with the given handle and no arguments.
    fn new(handle: F) -> (unit: Self)
        ensures
            unit.created_handle() == Some(handle),
            unit.created_arguments() is None,
    ;

    /// Stores the arguments in the unit, in place of any that it held.
    fn args(self, arguments: A) -> (unit: Self)
        requires
            self.created_handle() matches Some(handle) ==> call_requires(handle, (arguments,)),
        ensures
            unit.created_handle() == self.created_handle(),
            unit.created_arguments() == Some(arguments),
    ;
}

impl<A, R, F> CallableCreate<A, R, F> for Callable<A, R, F> where
    F: FnOnce(A) -> Result<R, Aborted>,
 {
    open spec fn created_handle(&self) -> Option<F> {
        self.handle()
    }

    open spec fn created_arguments(&self) -> Option<A> {
        self.arguments()
    }

    fn new(handle: F) -> (unit: Self) {
        Callable::new(handle)
    }

    fn args(self, arguments: A) -> (unit: Self) {
        Callable::args(self, arguments)
    }
}

impl<A, R, F> RunAndReturn for Callable<A, R, F> where F: FnOnce(A) -> Result<R, Aborted> {
    type ReturnType = R;

    open spec fn gives(&self, result: Result<R, CallableError>) -> bool {
        self.may_return(result)
    }

    /// Runs the unit once, consuming handle and arguments, and returns what
    /// the handle returned.
    fn run_and_return(&mut self) -> (result: Result<R, CallableError>)
        ensures
            old(self).may_return(result),
            old(self).consumed_into(final(self)),
    {
        let report = self.inner_run_once();
        Callable::<A, R, F>::compose_run_result(report)
    }
}

impl<A, R, F> Run for Callable<A, R, F> where F: FnOnce(A) -> Result<R, Aborted> {
    open spec fn yields(&self, verdict: Result<(), CallableError>) -> bool {
        exists|result: Result<R, CallableError>| #[trigger]
            self.may_return(result) && verdict == verdict_of(result)
    }

    /// Runs the unit once, consuming handle and arguments, and drops what
    /// the handle returned.
    fn run(&mut self) -> (verdict: Result<(), CallableError>)
        ensures
            exists|result: Result<R, CallableError>| #[trigger]
                old(self).may_return(result) && verdict == verdict_of(result),
            old(self).consumed_into(final(self)),
    {
        match self.run_and_return() {
            Ok(_inner) => Ok(()),
            Err(error) => Err(error),
        }
    }
}

impl<A, R, F> Callable<A, R, F> where F: FnOnce(A) -> Result<R, Aborted> {
    /// Runs the unit once and hands what the handle returned to the
    /// callback. The callback is not called where the run fails.
    ///
    /// This is `RunAndCallback::run_and_then`, with what is owed to the
    /// callback said of the callable itself.
    pub fn run_and_then<C: FnOnce(R) -> ()>(&mut self, callback: C) -> (verdict: Result<
        (),
        CallableError,
    >)
        requires
            forall|value: R| #[trigger]
                old(self).may_return(Ok(value)) ==> call_requires(callback, (value,)),
        ensures
            exists|result: Result<R, CallableError>| #[trigger]
                old(self).may_return(result) && match verdict {
                    Ok(done) => result matches Ok(value) && call_ensures(callback, (value,), done),
                    Err(error) => result == Err::<R, CallableError>(error),
                },
            old(self).consumed_into(final(self)),
    {
        match self.run_and_return() {
            Ok(inner) => Ok(callback(inner)),
            Err(inner) => Err(inner),
        }
    }
}

impl<A, R, F> RunAndCallback for Callable<A, R, F> where F: FnOnce(A) -> Result<R, Aborted> {
    fn run_and_then<C: FnOnce(R) -> ()>(&mut self, callback: C) -> (verdict: Result<
        (),
        CallableError,
    >)
        ensures
            exists|result: Result<R, CallableError>| #[trigger]
                old(self).may_return(result) && match verdict {
                    Ok(done) => result matches Ok(value) && call_ensures(callback, (value,), done),
                    Err(error) => result == Err::<R, CallableError>(error),
                },
            old(self).consumed_into(final(self)),
    {
        proof {
            assert forall|value: R| #[trigger] old(self).may_return(Ok(value)) implies call_requires(
                callback,
                (value,),
            ) by {
                assert(old(self).gives(Ok(value)));
            }
        }
        let verdict = Callable::run_and_then(self, callback);
        proof {
            let result = choose|result: Result<R, CallableError>| #[trigger]
                old(self).may_return(result) && match verdict {
                    Ok(done) => result matches Ok(value) && call_ensures(callback, (value,), done),
                    Err(error) => result == Err::<R, CallableError>(error),
                };
            assert(old(self).gives(result));
        }
        verdict
    }
}

impl<A, R, F> RunAndDebug for Callable<A, R, F> where
    R: Represent,
    F: FnOnce(A) -> Result<R, Aborted>,
 {
    /// Runs the unit once and returns the debug text of what the handle
    /// returned.
    fn run_and_debug(&mut self) -> (text: Result<String, CallableError>)
        ensures
            exists|result: Result<R, CallableError>| #[trigger]
                old(self).may_return(result) && match text {
                    Ok(text) => result matches Ok(value) && text@ == or_placeholder(
                        value.text(Style::Debug),
                    ),
                    Err(error) => result == Err::<R, CallableError>(error),
                },
            old(self).consumed_into(final(self)),
    {
        let result = self.run_and_return();
        proof {
            assert(old(self).gives(result));
        }
        match result {
            Ok(inner) => Ok(styled_or_placeholder(&inner, Style::Debug)),
            Err(inner) => Err(inner),
        }
    }
}

impl<A, R, F> RunAndDisplay for Callable<A, R, F> where
    R: Represent,
    F: FnOnce(A) -> Result<R, Aborted>,
 {
    /// Runs the unit once and returns the display text of what the handle
    /// returned.
    fn run_and_display(&mut self) -> (text: Result<String, CallableError>)
        ensures
            exists|result: Result<R, CallableError>| #[trigger]
                old(self).may_return(result) && match text {
                    Ok(text) => result matches Ok(value) && text@ == or_placeholder(
                        value.text(Style::Display),
                    ),
                    Err(error) => result == Err::<R, CallableError>(error),
                },
            old(self).consumed_into(final(self)),
    {
        let result = self.run_and_return();
        proof {
            assert(old(self).gives(result));
        }
        match result {
            Ok(inner) => Ok(styled_or_placeholder(&inner, Style::Display)),
            Err(inner) => Err(inner),
        }
    }
}

/// At most once: whatever a unit did in a run, a second run is refused for
/// want of arguments. The handle is not invoked again, and nothing that the
/// first run returned comes back.
pub proof fn lemma_second_run_is_refused<A, R, F>(
    before: Callable<A, R, F>,
    after: Callable<A, R, F>,
    again: Result<R, CallableError>,
) where F: FnOnce(A) -> Result<R, Aborted>
    requires
        before.consumed_into(&after) || before.retained_into(&after),
        after.may_return(again),
    ensures
        after.refusal() == Some(CallableError::CallableArgumentsMissing),
        again == Err::<R, CallableError>(CallableError::CallableArgumentsMissing),
{
}

/// A run that consumed an armed unit leaves nothing behind: neither handle
/// nor arguments.
pub proof fn lemma_run_spends_an_armed_unit<A, R, F>(
    before: Callable<A, R, F>,
    after: Callable<A, R, F>,
) where F: FnOnce(A) -> Result<R, Aborted>
    requires
        before.armed(),
        before.consumed_into(&after),
    ensures
        after.handle() is None,
        after.arguments() is None,
{
}

/// Crash containment: where the handle of an armed unit can only abort, the
/// run returns `CallablePanicked`, as a value.
pub proof fn lemma_abort_is_contained<A, R, F>(
    unit: Callable<A, R, F>,
    result: Result<R, CallableError>,
) where F: FnOnce(A) -> Result<R, Aborted>
    requires
        unit.armed(),
        forall|outcome: Result<R, Aborted>| #[trigger]
            call_ensures(unit.handle()->0, (unit.arguments()->0,), outcome) ==> outcome is Err,
        unit.may_return(result),
    ensures
        result == Err::<R, CallableError>(CallableError::CallablePanicked),
{
}

/// `CallablePanicked` comes from an abort of the handle and from nothing
/// else.
pub proof fn lemma_panicked_means_aborted<A, R, F>(unit: Callable<A, R, F>) where
    F: FnOnce(A) -> Result<R, Aborted>,

    requires
        unit.may_return(Err(CallableError::CallablePanicked)),
    ensures
        unit.armed(),
        call_ensures(unit.handle()->0, (unit.arguments()->0,), Err::<R, Aborted>(Aborted)),
{
    let outcome = choose|outcome: Result<R, Aborted>| #[trigger]
        call_ensures(unit.handle()->0, (unit.arguments()->0,), outcome) && settled(outcome)
            == Err::<R, CallableError>(CallableError::CallablePanicked);
    assert(outcome is Err);
    assert(outcome->Err_0 == Aborted);
}

/// Round trip of the return value: where the handle of an armed unit can
/// return nothing but `value` on the arguments, the run returns `Ok(value)`.
pub proof fn lemma_run_returns_the_value<A, R, F>(
    unit: Callable<A, R, F>,
    value: R,
    result: Result<R, CallableError>,
) where F: FnOnce(A) -> Result<R, Aborted>
    requires
        unit.armed(),
        forall|outcome: Result<R, Aborted>| #[trigger]
            call_ensures(unit.handle()->0, (unit.arguments()->0,), outcome) ==> outcome == Ok::<
                R,
                Aborted,
            >(value),
        unit.may_return(result),
    ensures
        result == Ok::<R, CallableError>(value),
{
}

/// A unit without arguments does not run: the run returns
/// `CallableArgumentsMissing`, whether or not a handle is armed.
pub proof fn lemma_missing_arguments_refuse<A, R, F>(
    unit: Callable<A, R, F>,
    result: Result<R, CallableError>,
) where F: FnOnce(A) -> Result<R, Aborted>
    requires
        unit.arguments() is None,
        unit.may_return(result),
    ensures
        result == Err::<R, CallableError>(CallableError::CallableArgumentsMissing),
{
}

/// A unit with arguments and without a handle does not run: the run returns
/// `CallableHandleMissing`.
pub proof fn lemma_missing_handle_refuses<A, R, F>(
    unit: Callable<A, R, F>,
    result: Result<R, CallableError>,
) where F: FnOnce(A) -> Result<R, Aborted>
    requires
        unit.arguments() is Some,
        unit.handle() is None,
        unit.may_return(result),
    ensures
        result == Err::<R, CallableError>(CallableError::CallableHandleMissing),
{
}

/// The contracts of the run traits, spelled out for a callable: what the
/// traits say that a run gives or yields is what the callable may return.
pub proof fn lemma_callable_gives<A, R, F>(unit: Callable<A, R, F>) where
    F: FnOnce(A) -> Result<R, Aborted>,

    ensures
        forall|result: Result<R, CallableError>| #[trigger]
            unit.gives(result) <==> unit.may_return(result),
        forall|verdict: Result<(), CallableError>| #[trigger]
            unit.yields(verdict) <==> exists|result: Result<R, CallableError>| #[trigger]
                unit.may_return(result) && verdict == verdict_of(result),
{
}

} // verus!
