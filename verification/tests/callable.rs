use running::callable::{Aborted, Callable, CallableCreate};
use running::error::CallableError;
use running::{Run, RunAndCallback, RunAndDebug, RunAndDisplay, RunAndReturn};

#[test]
fn vector_pop() {
    let mut vector: Vec<isize> = vec![1, 2, 3, 4, 5, 6];
    let mut callable = Callable::new(|v: &mut Vec<isize>| Ok(v.pop())).args(&mut vector);
    let output: Option<isize> = callable.run_and_return().unwrap();

    println!("vector_pop() output: {:?}", output);
    assert_eq!(output, Some(6));
    assert_eq!(vector, [1, 2, 3, 4, 5]);
}

#[test]
fn vector_push() {
    let mut vector: Vec<isize> = vec![1, 2, 3, 4, 5];
    let mut callable =
        Callable::new(|(v, x): (&mut Vec<isize>, isize)| Ok(v.push(x))).args((&mut vector, 7));
    let output: () = callable.run_and_return().unwrap();

    println!("vector_push() output: {:?}", output);
    assert_eq!(output, ());
    assert_eq!(vector, [1, 2, 3, 4, 5, 7]);
}

#[test]
fn vector_pop_and_push() {
    let mut vector: Vec<isize> = vec![1, 2, 3, 4, 5, 6];
    let mut callable = Callable::new(|v: &mut Vec<isize>| Ok(v.pop())).args(&mut vector);
    let output: Option<isize> = callable.run_and_return().unwrap();

    println!("vector_pop() output: {:?}", output);
    assert_eq!(output, Some(6));
    assert_eq!(vector, [1, 2, 3, 4, 5]);

    let mut callable =
        Callable::new(|(v, x): (&mut Vec<isize>, isize)| Ok(v.push(x))).args((&mut vector, 7));
    let output: () = callable.run_and_return().unwrap();

    println!("vector_push() output: {:?}", output);
    assert_eq!(output, ());
    assert_eq!(vector, [1, 2, 3, 4, 5, 7]);
}

#[test]
#[should_panic]
fn panic() {
    // the closure as the boundary around it reports it: it did not return
    let panicking_closure = |_: ()| -> Result<(), Aborted> { Err(Aborted) };
    let mut callable = Callable::nullary(panicking_closure);

    callable.run_and_return().unwrap();
}

#[test]
fn aborting_handle_is_contained() {
    let aborting_closure = |_: ()| -> Result<isize, Aborted> { Err(Aborted) };
    let mut callable = Callable::nullary(aborting_closure);

    assert_eq!(callable.run(), Err(CallableError::CallablePanicked));
    // the process goes on
    assert_eq!(callable.run(), Err(CallableError::CallableArgumentsMissing));
}

#[test]
fn aborted_invocation_is_reported_as_panicked() {
    let mut callable = Callable::new(|_: u8| Err::<u8, Aborted>(Aborted)).args(3);
    assert_eq!(callable.run_and_return(), Err(CallableError::CallablePanicked));
    assert!(!callable.has_handle());
    assert!(!callable.has_arguments());
}

#[test]
fn second_run_is_refused() {
    let mut vector: Vec<isize> = vec![1, 2, 3, 4, 5, 6];
    let mut callable = Callable::new(|v: &mut Vec<isize>| Ok(v.pop())).args(&mut vector);
    assert_eq!(callable.run_and_return(), Ok(Some(6)));
    assert_eq!(callable.run(), Err(CallableError::CallableArgumentsMissing));
    assert_eq!(callable.run_and_return(), Err(CallableError::CallableArgumentsMissing));
    assert_eq!(vector, [1, 2, 3, 4, 5]);
}

#[test]
fn handle_is_not_invoked_twice() {
    let mut count: usize = 0;
    {
        let mut callable = Callable::new(|c: &mut usize| Ok(*c += 1)).args(&mut count);
        assert_eq!(callable.run(), Ok(()));
        assert_eq!(callable.run(), Err(CallableError::CallableArgumentsMissing));
    }
    assert_eq!(count, 1);
}

#[test]
fn run_returns_the_value_once() {
    let mut callable = Callable::new(|(a, b): (i32, i32)| Ok(a + b)).args((20, 22));
    assert_eq!(callable.run_and_return(), Ok(42));
    assert_eq!(callable.run_and_return(), Err(CallableError::CallableArgumentsMissing));
}

#[test]
fn missing_arguments_are_reported() {
    let mut callable: Callable<u8, u8, _> = Callable::new(|x: u8| Ok(x));
    assert!(callable.has_handle());
    assert!(!callable.has_arguments());
    assert_eq!(callable.run(), Err(CallableError::CallableArgumentsMissing));
    // the handle is still there: arguments can be given now
    assert!(callable.has_handle());
    let mut callable = callable.args(5);
    assert_eq!(callable.run_and_return(), Ok(5));
}

#[test]
fn missing_handle_is_reported() {
    let mut callable = Callable::new(|x: u8| Ok(x)).args(1);
    assert_eq!(callable.run_and_return(), Ok(1));
    // arguments again, but the handle was moved out by the first run
    let mut callable = callable.args(2);
    assert!(!callable.has_handle());
    assert!(callable.has_arguments());
    assert_eq!(callable.run_and_return(), Err(CallableError::CallableHandleMissing));
    // the arguments were taken before the handle was missed
    assert!(!callable.has_arguments());
}

#[test]
fn nullary_handle_needs_no_arguments() {
    let mut callable = Callable::nullary(|_: ()| Ok("done"));
    assert!(callable.has_arguments());
    assert_eq!(callable.run_and_return(), Ok("done"));
    assert_eq!(callable.run_and_return(), Err(CallableError::CallableArgumentsMissing));
}

#[test]
fn args_replace_earlier_arguments() {
    let mut callable = Callable::new(|x: u8| Ok(x)).args(1).args(2);
    assert_eq!(callable.run_and_return(), Ok(2));
}

#[test]
fn compose_run_result_cases() {
    type Unit = Callable<(), u8, fn(()) -> Result<u8, Aborted>>;
    assert_eq!(Unit::compose_run_result::<Aborted>(Ok(Ok(7))), Ok(7));
    assert_eq!(
        Unit::compose_run_result::<Aborted>(Ok(Err(CallableError::CallableHandleMissing))),
        Err(CallableError::CallableHandleMissing)
    );
    assert_eq!(
        Unit::compose_run_result::<Aborted>(Ok(Err(CallableError::CallableArgumentsMissing))),
        Err(CallableError::CallableArgumentsMissing)
    );
    assert_eq!(
        Unit::compose_run_result(Err::<Result<u8, CallableError>, _>("payload")),
        Err(CallableError::CallablePanicked)
    );
}

#[test]
fn inner_run_once_reports_like_the_boundary() {
    let mut callable = Callable::new(|x: u8| Ok(x + 1)).args(1);
    assert_eq!(callable.inner_run_once(), Ok(Ok(2)));
    assert_eq!(callable.inner_run_once(), Ok(Err(CallableError::CallableArgumentsMissing)));

    let mut callable = Callable::new(|_: u8| Err::<u8, Aborted>(Aborted)).args(1);
    assert_eq!(callable.inner_run_once(), Err(Aborted));

    let mut callable = Callable::new(|x: u8| Ok(x)).args(1);
    assert_eq!(callable.inner_run_once(), Ok(Ok(1)));
    let mut callable = callable.args(1);
    assert_eq!(callable.inner_run_once(), Ok(Err(CallableError::CallableHandleMissing)));
}

#[test]
fn inner_run_keeps_the_handle() {
    let double = |x: u8| Ok(x * 2);
    let mut callable = Callable::new(double).args(4);
    assert_eq!(callable.inner_run(), Ok(Ok(8)));
    assert!(callable.has_handle());
    assert_eq!(callable.inner_run(), Ok(Err(CallableError::CallableArgumentsMissing)));
    let mut callable = callable.args(5);
    assert_eq!(callable.inner_run(), Ok(Ok(10)));
}

#[test]
fn inner_run_mut_keeps_the_handle() {
    let mut total: u32 = 0;
    let add = |x: u32| {
        total += x;
        Ok(total)
    };
    let mut callable = Callable::new(add).args(4);
    assert_eq!(callable.inner_run_mut(), Ok(Ok(4)));
    assert!(callable.has_handle());
    assert_eq!(callable.inner_run_mut(), Ok(Err(CallableError::CallableArgumentsMissing)));
    let mut callable = callable.args(5);
    assert_eq!(callable.inner_run_mut(), Ok(Ok(9)));
}

#[test]
fn run_and_then_hands_the_value_over() {
    let mut seen: Option<isize> = None;
    let mut callable = Callable::new(|x: isize| Ok(x - 1)).args(10);
    assert_eq!(callable.run_and_then(|value| seen = Some(value)), Ok(()));
    assert_eq!(seen, Some(9));
}

#[test]
fn run_and_then_skips_the_callback_on_failure() {
    let mut called = false;
    let mut callable = Callable::new(|_: isize| Err::<isize, Aborted>(Aborted)).args(10);
    assert_eq!(
        callable.run_and_then(|_| called = true),
        Err(CallableError::CallablePanicked)
    );
    assert!(!called);

    let mut callable: Callable<isize, isize, _> = Callable::new(|x: isize| Ok(x));
    assert_eq!(
        callable.run_and_then(|_| called = true),
        Err(CallableError::CallableArgumentsMissing)
    );
    assert!(!called);
}

#[test]
fn run_and_debug_gives_the_debug_text() {
    let mut vector: Vec<isize> = vec![1, 2, 3, 4, 5, 6];
    let mut callable = Callable::new(|v: &mut Vec<isize>| Ok(v.pop())).args(&mut vector);
    assert_eq!(callable.run_and_debug(), Ok(String::from("Some(6)")));

    let mut callable = Callable::nullary(|_: ()| Ok(()));
    assert_eq!(callable.run_and_debug(), Ok(String::from("()")));

    let mut callable = Callable::nullary(|_: ()| Ok(None::<u8>));
    assert_eq!(callable.run_and_debug(), Ok(String::from("None")));

    // a string has no debug text here: the placeholder stands in
    let mut callable = Callable::nullary(|_: ()| Ok(String::from("text")));
    assert_eq!(callable.run_and_debug(), Ok(String::new()));

    let mut callable: Callable<u8, u8, _> = Callable::new(|x: u8| Ok(x));
    assert_eq!(callable.run_and_debug(), Err(CallableError::CallableArgumentsMissing));
}

#[test]
fn run_and_display_gives_the_display_text() {
    let mut callable = Callable::new(|x: i64| Ok(-x)).args(1234);
    assert_eq!(callable.run_and_display(), Ok(String::from("-1234")));

    let mut callable = Callable::nullary(|_: ()| Ok(String::from("text")));
    assert_eq!(callable.run_and_display(), Ok(String::from("text")));

    // the unit value has no display text: the placeholder stands in
    let mut callable = Callable::nullary(|_: ()| Ok(()));
    assert_eq!(callable.run_and_display(), Ok(String::new()));

    let mut callable = Callable::new(|_: u8| Err::<u8, Aborted>(Aborted)).args(0);
    assert_eq!(callable.run_and_display(), Err(CallableError::CallablePanicked));
}

#[test]
fn error_messages() {
    assert_eq!(
        CallableError::CallableHandleMissing.to_string(),
        "Callable handle missing. Either it was not provided, or was moved during a previous method call"
    );
    assert_eq!(
        CallableError::CallableArgumentsMissing.to_string(),
        "Callable arguments missing. Either they were not provided, or were moved during a previous method call"
    );
    assert_eq!(CallableError::CallablePanicked.to_string(), "Callable panicked");
    assert_eq!(
        CallableError::CallableHandleStringMissing.to_string(),
        "Callable handle string missing. It is necessary for logging"
    );
    assert_eq!(
        CallableError::CallableArgumentStringMissing.to_string(),
        "Callable argument string missing. It is necessary for logging"
    );
    assert_eq!(
        CallableError::CallableLoggingFormatMissing.to_string(),
        "Callable logging format missing. It is necessary for logging"
    );
}

#[test]
fn units_can_be_made_through_the_trait() {
    fn make<U: CallableCreate<u8, u8, fn(u8) -> Result<u8, Aborted>>>(
        handle: fn(u8) -> Result<u8, Aborted>,
    ) -> U {
        U::new(handle).args(20)
    }
    fn double(x: u8) -> Result<u8, Aborted> {
        Ok(x * 2)
    }
    let mut callable: Callable<u8, u8, fn(u8) -> Result<u8, Aborted>> = make(double);
    assert_eq!(callable.run_and_return(), Ok(40));
}

#[test]
fn units_run_through_the_traits() {
    fn run_twice<T: Run>(unit: &mut T) -> (Result<(), CallableError>, Result<(), CallableError>) {
        (unit.run(), unit.run())
    }
    fn value_of<T: RunAndReturn>(unit: &mut T) -> Result<T::ReturnType, CallableError> {
        unit.run_and_return()
    }
    fn then<T: RunAndCallback<ReturnType = u8>>(unit: &mut T, seen: &mut u8) -> Result<(), CallableError> {
        unit.run_and_then(|value| *seen = value)
    }
    let mut callable = Callable::new(|x: u8| Ok(x)).args(1);
    assert_eq!(
        run_twice(&mut callable),
        (Ok(()), Err(CallableError::CallableArgumentsMissing))
    );
    let mut callable = Callable::new(|x: u8| Ok(x)).args(2);
    assert_eq!(value_of(&mut callable), Ok(2));
    let mut seen = 0;
    let mut callable = Callable::new(|x: u8| Ok(x)).args(3);
    assert_eq!(then(&mut callable, &mut seen), Ok(()));
    assert_eq!(seen, 3);
}
