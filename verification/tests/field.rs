use crd_api::date::{Date, DateTime};
use crd_api::field::{
    date_field, date_time_field, de_bool_opt, de_completion, de_date_opt, de_datetime, FieldError,
};

#[test]
fn zero_is_settled_and_one_is_open() {
    assert_eq!(de_bool_opt("0"), Ok(Some(true)));
    assert_eq!(de_bool_opt("1"), Ok(Some(false)));
}

#[test]
fn other_texts_are_no_flag() {
    for text in ["", "2", "00", "01", "true", " 0", "0 ", "０"] {
        assert_eq!(de_bool_opt(text), Err(FieldError::Flag { text: text.to_string() }));
    }
}

#[test]
fn one_is_complete_and_two_is_incomplete() {
    assert_eq!(de_completion("1"), Ok(Some(true)));
    assert_eq!(de_completion("2"), Ok(Some(false)));
    assert_eq!(de_completion("0"), Err(FieldError::Flag { text: "0".to_string() }));
    assert_eq!(de_completion(""), Err(FieldError::Flag { text: String::new() }));
}

#[test]
fn a_flag_error_quotes_the_text() {
    let e = de_bool_opt("yes").unwrap_err();
    assert_eq!(e.to_string(), "failed to parse `yes` to bool");
    let e = de_completion("").unwrap_err();
    assert_eq!(e.to_string(), "failed to parse `` to bool");
}

#[test]
fn eight_digits_are_a_date() {
    assert_eq!(de_date_opt("20321213"), Ok(Some(Date { year: 2032, month: 12, day: 13 })));
    assert_eq!(de_date_opt("20330213"), Ok(Some(Date { year: 2033, month: 2, day: 13 })));
    assert_eq!(de_date_opt("20000229"), Ok(Some(Date { year: 2000, month: 2, day: 29 })));
}

#[test]
fn eight_zeros_are_no_date() {
    assert_eq!(de_date_opt("00000000"), Ok(None));
}

#[test]
fn a_day_that_does_not_exist_is_refused() {
    let expected = chrono::NaiveDate::parse_from_str("20230230", "%Y%m%d").unwrap_err();
    assert_eq!(
        de_date_opt("20230230"),
        Err(FieldError::Date { reason: expected.to_string() })
    );
    assert!(matches!(de_date_opt("20231301"), Err(FieldError::Date { .. })));
    assert!(matches!(de_date_opt("0000000"), Err(FieldError::Date { .. })));
    assert!(matches!(de_date_opt(""), Err(FieldError::Date { .. })));
    assert!(matches!(de_date_opt("2032-12-13"), Err(FieldError::Date { .. })));
}

#[test]
fn a_date_error_reads_as_the_readers_reason() {
    let expected = chrono::NaiveDate::parse_from_str("abc", "%Y%m%d").unwrap_err();
    let e = de_date_opt("abc").unwrap_err();
    assert_eq!(e.to_string(), expected.to_string());
    assert_ne!(e.to_string(), "");
}

#[test]
fn the_text_decides_before_the_reader() {
    let day = Date { year: 1999, month: 1, day: 2 };
    assert_eq!(date_field("00000000", Ok(day)), Ok(None));
    assert_eq!(date_field("00000000", Err("no".to_string())), Ok(None));
    assert_eq!(date_field("19990102", Ok(day)), Ok(Some(day)));
    assert_eq!(
        date_field("x", Err("no".to_string())),
        Err(FieldError::Date { reason: "no".to_string() })
    );
}

#[test]
fn fourteen_digits_are_a_date_and_time() {
    assert_eq!(
        de_datetime("20330211125936"),
        Ok(DateTime {
            date: Date { year: 2033, month: 2, day: 11 },
            hour: 12,
            minute: 59,
            second: 36,
            nanosecond: 0,
        })
    );
    assert_eq!(
        de_datetime("20330221101300"),
        Ok(DateTime {
            date: Date { year: 2033, month: 2, day: 21 },
            hour: 10,
            minute: 13,
            second: 0,
            nanosecond: 0,
        })
    );
}

#[test]
fn a_time_that_does_not_exist_is_refused() {
    assert!(matches!(de_datetime("20330211245936"), Err(FieldError::Date { .. })));
    assert!(matches!(de_datetime("20330211"), Err(FieldError::Date { .. })));
    assert!(matches!(de_datetime(""), Err(FieldError::Date { .. })));
    assert!(matches!(de_datetime("00000000000000"), Err(FieldError::Date { .. })));
}

#[test]
fn a_read_moment_is_kept_and_a_reason_becomes_an_error() {
    let moment = DateTime {
        date: Date { year: 2033, month: 2, day: 21 },
        hour: 19,
        minute: 37,
        second: 45,
        nanosecond: 0,
    };
    assert_eq!(date_time_field(Ok(moment)), Ok(moment));
    assert_eq!(
        date_time_field(Err("too short".to_string())),
        Err(FieldError::Date { reason: "too short".to_string() })
    );
}
