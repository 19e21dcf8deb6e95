use seqtext::exam::{CertificateStatus, Exam};
use seqtext::hex::{as_hex_string, parse_u32, ParseError};
use seqtext::options::sum_present;
use seqtext::person::make_person;
use seqtext::todo::ToDo;

#[test]
fn make_person_fills_both_fields() {
    let p = make_person("Bob", 41);
    assert_eq!(p.name, "Bob");
    assert_eq!(p.age, 41);
}

#[test]
fn exam_starts_ungraded_and_records_grades() {
    let mut exam = Exam::new(make_person("Bob", 41), "Geography");
    assert_eq!(exam.attendee_name(), "Bob");
    assert_eq!(exam.subject(), "Geography");
    assert_eq!(exam.certificate_status(), CertificateStatus::NotTaken);
    exam.set_grade(3);
    assert_eq!(exam.certificate_status(), CertificateStatus::Passed(3));
    exam.set_grade(4);
    assert_eq!(exam.certificate_status(), CertificateStatus::Passed(4));
    exam.set_grade(5);
    assert_eq!(exam.certificate_status(), CertificateStatus::Failed(5));
}

#[test]
fn todo_items_check_off() {
    let mut todo = ToDo::new(false, "Dinner");
    assert!(!todo.is_done());
    assert_eq!(todo.1, "Dinner");
    todo.check();
    assert!(todo.is_done());
    assert_eq!(todo.1, "Dinner");
    let done = ToDo::new(true, "Laundry");
    assert!(done.is_done());
}

#[test]
fn parse_u32_reads_decimal_digits() {
    assert_eq!(parse_u32("0"), Ok(0));
    assert_eq!(parse_u32("42"), Ok(42));
    assert_eq!(parse_u32("4294967295"), Ok(u32::MAX));
}

#[test]
fn parse_u32_reports_each_failure() {
    assert_eq!(parse_u32(""), Err(ParseError::Empty));
    assert_eq!(parse_u32("-1"), Err(ParseError::InvalidDigit));
    assert_eq!(parse_u32("1x2"), Err(ParseError::InvalidDigit));
    assert_eq!(parse_u32("4294967296"), Err(ParseError::Overflow));
    assert_eq!(parse_u32("99999999999999999999"), Err(ParseError::Overflow));
}

#[test]
fn hex_strings_are_lowercase_and_at_least_two_digits() {
    assert_eq!(as_hex_string("10").unwrap(), "0a");
    assert_eq!(as_hex_string("15").unwrap(), "0f");
    assert_eq!(as_hex_string("16").unwrap(), "10");
    assert_eq!(as_hex_string("42").unwrap(), "2a");
    assert_eq!(as_hex_string("0").unwrap(), "00");
    assert_eq!(as_hex_string("255").unwrap(), "ff");
    assert_eq!(as_hex_string("4294967295").unwrap(), "ffffffff");
    assert_eq!(as_hex_string("-1"), Err(ParseError::InvalidDigit));
}

#[test]
fn sum_present_skips_absent_entries() {
    assert_eq!(sum_present(&vec![Some(22), None, Some(20)]), 42);
    assert_eq!(sum_present(&vec![]), 0);
    assert_eq!(sum_present(&vec![None, None]), 0);
    assert_eq!(sum_present(&vec![Some(-5), Some(3), None]), -2);
    assert_eq!(sum_present(&vec![Some(i32::MAX), Some(i32::MAX)]), 2 * (i32::MAX as i128));
}
