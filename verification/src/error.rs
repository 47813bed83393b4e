//! The errors that the library reports.

use vstd::prelude::*;
use vstd::std_specs::convert::FromSpecImpl;

verus! {

/// `csv::Error`: what the CSV reader and writer fail with.
#[verifier::external_type_specification]
#[verifier::external_body]
pub struct ExCsvError(csv::Error);

/// `chrono::ParseError`: what the date parser fails with.
#[verifier::external_type_specification]
#[verifier::external_body]
pub struct ExDateParseError(chrono::ParseError);

/// `argon2::password_hash::Error`: what the password hasher fails with.
#[verifier::external_type_specification]
#[verifier::external_body]
pub struct ExPasswordHashError(argon2::password_hash::Error);

/// `std::io::Error`: what reading and writing a file fails with.
#[verifier::external_type_specification]
#[verifier::external_body]
pub struct ExIoError(std::io::Error);

/// `serde_json::Error`: what the JSON encoder and decoder fail with.
#[verifier::external_type_specification]
#[verifier::external_body]
pub struct ExJsonError(serde_json::Error);

/// `regex::Error`: what compiling a pattern fails with.
#[verifier::external_type_specification]
#[verifier::external_body]
pub struct ExRegexError(regex::Error);

/// A failure of the password hasher.
#[derive(Debug)]
pub struct Argon2Error(pub argon2::password_hash::Error);

/// Every way in which an operation of the library can fail.
#[derive(Debug)]
pub enum RusticError {
    /// A row of a store is malformed, or a row could not be encoded.
    CSVError(csv::Error),
    /// A due date is not written in the due-date format.
    DateParserError(chrono::ParseError),
    /// A stored hash is malformed, or the hasher refused a password.
    HashingError(Argon2Error),
    /// A store could not be opened, read or appended to.
    IOError(std::io::Error),
    /// An author could not be copied through JSON.
    JSONError(serde_json::Error),
    /// A validation pattern is malformed.
    RegexError(regex::Error),
    /// The store already holds an author with this email address.
    AuthorExists,
    /// The email address does not have the shape of an address.
    InvalidEmail,
}

impl From<argon2::password_hash::Error> for Argon2Error {
    fn from(value: argon2::password_hash::Error) -> (e: Self) {
        Argon2Error(value)
    }
}

impl FromSpecImpl<argon2::password_hash::Error> for Argon2Error {
    open spec fn obeys_from_spec() -> bool {
        true
    }

    open spec fn from_spec(value: argon2::password_hash::Error) -> Self {
        Argon2Error(value)
    }
}

impl From<csv::Error> for RusticError {
    fn from(value: csv::Error) -> (e: Self) {
        RusticError::CSVError(value)
    }
}

impl FromSpecImpl<csv::Error> for RusticError {
    open spec fn obeys_from_spec() -> bool {
        true
    }

    open spec fn from_spec(value: csv::Error) -> Self {
        RusticError::CSVError(value)
    }
}

impl From<chrono::ParseError> for RusticError {
    fn from(value: chrono::ParseError) -> (e: Self) {
        RusticError::DateParserError(value)
    }
}

impl FromSpecImpl<chrono::ParseError> for RusticError {
    open spec fn obeys_from_spec() -> bool {
        true
    }

    open spec fn from_spec(value: chrono::ParseError) -> Self {
        RusticError::DateParserError(value)
    }
}

impl From<Argon2Error> for RusticError {
    fn from(value: Argon2Error) -> (e: Self) {
        RusticError::HashingError(value)
    }
}

impl FromSpecImpl<Argon2Error> for RusticError {
    open spec fn obeys_from_spec() -> bool {
        true
    }

    open spec fn from_spec(value: Argon2Error) -> Self {
        RusticError::HashingError(value)
    }
}

impl From<std::io::Error> for RusticError {
    fn from(value: std::io::Error) -> (e: Self) {
        RusticError::IOError(value)
    }
}

impl FromSpecImpl<std::io::Error> for RusticError {
    open spec fn obeys_from_spec() -> bool {
        true
    }

    open spec fn from_spec(value: std::io::Error) -> Self {
        RusticError::IOError(value)
    }
}

impl From<serde_json::Error> for RusticError {
    fn from(value: serde_json::Error) -> (e: Self) {
        RusticError::JSONError(value)
    }
}

impl FromSpecImpl<serde_json::Error> for RusticError {
    open spec fn obeys_from_spec() -> bool {
        true
    }

    open spec fn from_spec(value: serde_json::Error) -> Self {
        RusticError::JSONError(value)
    }
}

impl From<regex::Error> for RusticError {
    fn from(value: regex::Error) -> (e: Self) {
        RusticError::RegexError(value)
    }
}

impl FromSpecImpl<regex::Error> for RusticError {
    open spec fn obeys_from_spec() -> bool {
        true
    }

    open spec fn from_spec(value: regex::Error) -> Self {
        RusticError::RegexError(value)
    }
}

} // verus!
