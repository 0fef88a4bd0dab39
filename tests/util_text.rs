use science::util::{
    db_path, decimal_string, generic_error, int_string, log, logfile_path, specific_error, Error,
};

#[test]
fn decimal_text_of_numbers() {
    assert_eq!(decimal_string(0), "0");
    assert_eq!(decimal_string(7), "7");
    assert_eq!(decimal_string(10), "10");
    assert_eq!(decimal_string(18446744073709551615), "18446744073709551615");
}

#[test]
fn signed_text_of_numbers() {
    assert_eq!(int_string(0), "0");
    assert_eq!(int_string(-42), "-42");
    assert_eq!(int_string(123456), "123456");
    assert_eq!(int_string(i64::MIN), "-9223372036854775808");
    assert_eq!(int_string(i64::MAX), "9223372036854775807");
}

#[test]
fn project_paths() {
    assert_eq!(logfile_path(), ".science/client.log");
    assert_eq!(db_path(), ".science/Science.db");
}

#[test]
fn generic_error_points_to_log() {
    let e = generic_error(String::from("disk full"));
    assert_eq!(
        e.message(),
        "An error occurred.  Look in .science/client.log for more details."
    );
    assert_eq!(log(&e), Some(String::from("disk full")));
}

#[test]
fn specific_error_shows_its_message() {
    let e = specific_error(None, String::from("no experiment"));
    assert_eq!(e.message(), "no experiment");
    assert_eq!(log(&e), None);
    let e = specific_error(Some(String::from("cause")), String::from("shown"));
    assert_eq!(e.message(), "shown");
    assert_eq!(log(&e), Some(String::from("cause")));
    assert!(matches!(e, Error::Specific(Some(_), _)));
}

#[test]
fn generic_error_without_cause_logs_nothing() {
    let e = Error::Generic(None);
    assert_eq!(log(&e), None);
}
