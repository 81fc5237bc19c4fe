use running::error::CallableError;
use running::represent::{push_decimal, signed_text, unsigned_text};
use running::{Represent, Style};

#[test]
fn try_string_from() {
    let value: isize = 5;
    assert_eq!(String::from("5"), running::try_string_from(&value).unwrap())
}

#[test]
fn integers_read_as_decimals() {
    assert_eq!(unsigned_text(0), "0");
    assert_eq!(unsigned_text(7), "7");
    assert_eq!(unsigned_text(10), "10");
    assert_eq!(unsigned_text(1234567890), "1234567890");
    assert_eq!(unsigned_text(u128::MAX), u128::MAX.to_string());
    assert_eq!(signed_text(0), "0");
    assert_eq!(signed_text(-1), "-1");
    assert_eq!(signed_text(-120), "-120");
    assert_eq!(signed_text(i128::MAX), i128::MAX.to_string());
    assert_eq!(signed_text(i128::MIN), i128::MIN.to_string());
}

#[test]
fn push_decimal_appends() {
    let mut text = String::from("n = ");
    push_decimal(&mut text, 905);
    assert_eq!(text, "n = 905");
}

#[test]
fn every_integer_type_has_both_texts() {
    assert_eq!(255u8.styled(Style::Display), Some(String::from("255")));
    assert_eq!(65535u16.styled(Style::Debug), Some(String::from("65535")));
    assert_eq!(u32::MAX.represent(), u32::MAX.to_string());
    assert_eq!(u64::MAX.represent(), u64::MAX.to_string());
    assert_eq!(u128::MAX.represent(), u128::MAX.to_string());
    assert_eq!(usize::MAX.represent(), usize::MAX.to_string());
    assert_eq!(i8::MIN.represent(), "-128");
    assert_eq!(i16::MIN.represent(), "-32768");
    assert_eq!(i32::MIN.represent(), i32::MIN.to_string());
    assert_eq!(i64::MIN.represent(), i64::MIN.to_string());
    assert_eq!(i128::MIN.represent(), i128::MIN.to_string());
    assert_eq!(isize::MIN.represent(), isize::MIN.to_string());
    assert_eq!((-5isize).styled(Style::Debug), Some(String::from("-5")));
}

#[test]
fn unit_has_a_debug_text_only() {
    assert_eq!(().styled(Style::Display), None);
    assert_eq!(().styled(Style::Debug), Some(String::from("()")));
    assert_eq!(().represent(), "()");
    assert_eq!(running::try_string_from(&()), Some(String::from("()")));
}

#[test]
fn truth_values() {
    assert_eq!(true.represent(), "true");
    assert_eq!(false.represent(), "false");
    assert_eq!(false.styled(Style::Debug), Some(String::from("false")));
}

#[test]
fn string_has_a_display_text_only() {
    let text = String::from("a b\tc");
    assert_eq!(text.styled(Style::Display), Some(String::from("a b\tc")));
    assert_eq!(text.styled(Style::Debug), None);
    assert_eq!(text.represent(), "a b\tc");
}

#[test]
fn option_has_a_debug_text_where_its_value_has() {
    assert_eq!(Some(6isize).styled(Style::Debug), Some(String::from("Some(6)")));
    assert_eq!(Some(6isize).styled(Style::Display), None);
    assert_eq!(None::<isize>.represent(), "None");
    assert_eq!(Some(Some(())).represent(), "Some(Some(()))");
    // a string has no debug text, so an option of it has none either
    assert_eq!(Some(String::from("x")).styled(Style::Debug), None);
    assert_eq!(running::try_string_from(&Some(String::from("x"))), None);
    assert_eq!(Some(String::from("x")).represent(), "");
    assert_eq!(None::<String>.represent(), "None");
}

#[test]
fn error_displays_as_its_message() {
    let error = CallableError::CallablePanicked;
    assert_eq!(error.styled(Style::Display), Some(String::from("Callable panicked")));
    assert_eq!(error.styled(Style::Debug), Some(String::from("CallablePanicked")));
    assert_eq!(error.represent(), "Callable panicked");
    assert_eq!(
        CallableError::CallableHandleStringMissing.styled(Style::Debug),
        Some(format!("{:?}", CallableError::CallableHandleStringMissing))
    );
    assert_eq!(
        CallableError::CallableArgumentStringMissing.styled(Style::Debug),
        Some(format!("{:?}", CallableError::CallableArgumentStringMissing))
    );
    assert_eq!(
        CallableError::CallableLoggingFormatMissing.styled(Style::Debug),
        Some(format!("{:?}", CallableError::CallableLoggingFormatMissing))
    );
    assert_eq!(
        CallableError::CallableHandleMissing.styled(Style::Debug),
        Some(format!("{:?}", CallableError::CallableHandleMissing))
    );
    assert_eq!(
        CallableError::CallableArgumentsMissing.styled(Style::Debug),
        Some(format!("{:?}", CallableError::CallableArgumentsMissing))
    );
}
