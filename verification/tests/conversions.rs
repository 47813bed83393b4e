use rustic_tasks::{Argon2Error, RusticError};

#[test]
fn a_reader_failure_becomes_a_csv_error() {
    let mut reader = csv::ReaderBuilder::new()
        .has_headers(false)
        .from_reader("one,two\nthree\n".as_bytes());
    let failure = reader.records().find_map(|record| record.err()).expect("a refused row");
    assert!(matches!(RusticError::from(failure), RusticError::CSVError(_)));
}

#[test]
fn a_date_failure_becomes_a_date_parser_error() {
    let failure = chrono::DateTime::parse_from_rfc3339("yesterday").expect_err("no timestamp");
    assert!(matches!(RusticError::from(failure), RusticError::DateParserError(_)));
}

#[test]
fn a_hasher_failure_becomes_a_hashing_error() {
    let failure = argon2::password_hash::Error::Password;
    let wrapped = Argon2Error::from(failure);
    assert_eq!(wrapped.0, argon2::password_hash::Error::Password);
    assert!(matches!(
        RusticError::from(wrapped),
        RusticError::HashingError(Argon2Error(argon2::password_hash::Error::Password))
    ));
}

#[test]
fn an_io_failure_becomes_an_io_error() {
    let failure = std::io::Error::new(std::io::ErrorKind::NotFound, "no such store");
    match RusticError::from(failure) {
        RusticError::IOError(inner) => assert_eq!(inner.kind(), std::io::ErrorKind::NotFound),
        other => panic!("{other:?}"),
    }
}

#[test]
fn a_json_failure_becomes_a_json_error() {
    let failure = serde_json::from_str::<serde_json::Value>("{").expect_err("no JSON");
    assert!(matches!(RusticError::from(failure), RusticError::JSONError(_)));
}

#[test]
fn a_pattern_failure_becomes_a_regex_error() {
    let failure = regex::Regex::new("(").expect_err("no pattern");
    assert!(matches!(RusticError::from(failure), RusticError::RegexError(_)));
}
