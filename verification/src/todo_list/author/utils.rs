//! The shape of an email address, and the hashing of passwords.

use vstd::prelude::*;
use vstd::string::is_ascii_spec_bytes;
use vstd::utf8::is_ascii_chars;
use crate::error::{Argon2Error, RusticError};
use argon2::password_hash::rand_core::OsRng;
use argon2::password_hash::{PasswordHash, PasswordHasher, PasswordVerifier, SaltString};
use argon2::Argon2;

verus! {

/// An ASCII letter of either case.
pub open spec fn is_letter(c: char) -> bool {
    ('a' <= c && c <= 'z') || ('A' <= c && c <= 'Z')
}

/// An ASCII digit.
pub open spec fn is_digit(c: char) -> bool {
    '0' <= c && c <= '9'
}

/// A character that may stand before the `@` of an address.
pub open spec fn is_local_char(c: char) -> bool {
    is_letter(c) || is_digit(c) || c == '.' || c == '_' || c == '%' || c == '+' || c == '-'
}

/// A character that may stand between the `@` and the last dot of an address.
pub open spec fn is_host_char(c: char) -> bool {
    is_letter(c) || is_digit(c) || c == ',' || c == '-'
}

/// `s` is an address whose `@` stands at `at` and whose last dot stands at
/// `dot`: one or more local characters, `@`, one or more host characters, a
/// dot, and two or more letters up to the end.
pub open spec fn splits_as_email(s: Seq<char>, at: int, dot: int) -> bool {
    &&& 0 < at
    &&& at + 1 < dot
    &&& dot + 2 < s.len()
    &&& s[at] == '@'
    &&& s[dot] == '.'
    &&& forall|i: int| 0 <= i < at ==> is_local_char(#[trigger] s[i])
    &&& forall|i: int| at < i < dot ==> is_host_char(#[trigger] s[i])
    &&& forall|i: int| dot < i < s.len() ==> is_letter(#[trigger] s[i])
}

/// The text has the shape of an email address.
pub open spec fn is_email_address(s: Seq<char>) -> bool {
    exists|at: int, dot: int| splits_as_email(s, at, dot)
}

/// The three kinds of character run that an address is made of.
#[derive(Clone, Copy)]
enum Run {
    Local,
    Host,
    Letters,
}

spec fn in_run(run: Run, c: char) -> bool {
    match run {
        Run::Local => is_local_char(c),
        Run::Host => is_host_char(c),
        Run::Letters => is_letter(c),
    }
}

/// Whether the ASCII character with this code belongs to the run.
fn byte_in_run(run: Run, b: u8) -> (r: bool)
    ensures
        r == in_run(run, b as char),
{
    let c = b as char;
    let letter = ('a' <= c && c <= 'z') || ('A' <= c && c <= 'Z');
    let digit = '0' <= c && c <= '9';
    match run {
        Run::Local => letter || digit || c == '.' || c == '_' || c == '%' || c == '+' || c == '-',
        Run::Host => letter || digit || c == ',' || c == '-',
        Run::Letters => letter,
    }
}

/// The end of the longest run of `run` characters that starts at `start`.
fn run_end(bytes: &[u8], start: usize, run: Run) -> (end: usize)
    requires
        start <= bytes@.len(),
    ensures
        start <= end <= bytes@.len(),
        forall|i: int| start <= i < end ==> in_run(run, #[trigger] bytes@[i] as char),
        end < bytes@.len() ==> !in_run(run, bytes@[end as int] as char),
{
    let mut end = start;
    while end < bytes.len() && byte_in_run(run, bytes[end])
        invariant
            start <= end <= bytes@.len(),
            forall|i: int| start <= i < end ==> in_run(run, #[trigger] bytes@[i] as char),
        ensures
            start <= end <= bytes@.len(),
            forall|i: int| start <= i < end ==> in_run(run, #[trigger] bytes@[i] as char),
            end < bytes@.len() ==> !in_run(run, bytes@[end as int] as char),
        decreases bytes@.len() - end,
    {
        end += 1;
    }
    end
}

/// Every character of an email address is ASCII.
proof fn lemma_email_is_ascii(s: Seq<char>)
    requires
        is_email_address(s),
    ensures
        is_ascii_chars(s),
{
    let (at, dot) = choose|at: int, dot: int| splits_as_email(s, at, dot);
    assert forall|i: int| 0 <= i < s.len() implies '\0' <= #[trigger] s[i] <= '\u{7f}' by {
        // Each place is in one of the three runs, or holds the `@` or the dot.
        assert(i < at || i == at || i < dot || i == dot || dot < i);
    }
}

/// Validates the email address: `true` exactly for a text made of one or more
/// letters, digits and `._%+-`, then `@`, then one or more letters, digits,
/// `,` and `-`, then a dot, then two or more letters.
pub fn is_valid_email(email: &str) -> (r: Result<bool, RusticError>)
    ensures
        r matches Ok(valid) && valid == is_email_address(email@),
{
    if !email.is_ascii() {
        proof {
            if is_email_address(email@) {
                lemma_email_is_ascii(email@);
            }
        }
        return Ok(false);
    }
    let bytes = email.as_bytes();
    let n = bytes.len();
    let ghost s = email@;
    proof {
        // An ASCII text has one byte for each character.
        is_ascii_spec_bytes(email);
        assert(forall|i: int| 0 <= i < s.len() ==> #[trigger] s[i] == bytes@[i] as char);
    }
    let at = run_end(bytes, 0, Run::Local);
    // Whatever splits the text puts the `@` where the local run ends.
    assert(forall|a: int, d: int| splits_as_email(s, a, d) ==> a == at);
    if at == 0 || at >= n || bytes[at] as char != '@' {
        return Ok(false);
    }
    let dot = run_end(bytes, at + 1, Run::Host);
    // And it puts the dot where the host run ends.
    assert(forall|a: int, d: int| splits_as_email(s, a, d) ==> d == dot);
    if dot == at + 1 || dot >= n || bytes[dot] as char != '.' {
        return Ok(false);
    }
    let end = run_end(bytes, dot + 1, Run::Letters);
    let valid = end == n && n - dot > 2;
    assert(valid ==> splits_as_email(s, at as int, dot as int));
    Ok(valid)
}

/// An address holds exactly one `@`: a text with none, or with two or more,
/// is no address.
pub proof fn lemma_email_has_one_at(s: Seq<char>)
    requires
        is_email_address(s),
    ensures
        exists|at: int|
            0 <= at < s.len() && s[at] == '@' && forall|i: int|
                0 <= i < s.len() && #[trigger] s[i] == '@' ==> i == at,
{
    let (at, dot) = choose|at: int, dot: int| splits_as_email(s, at, dot);
    assert forall|i: int| 0 <= i < s.len() && #[trigger] s[i] == '@' implies i == at by {
        // A character of one of the three runs is no `@`, and the dot is none.
        assert(i < at || i == at || i < dot || i == dot || dot < i);
    }
}

/// An address ends in a dot followed by two or more letters and nothing else:
/// a text without such an ending is no address.
pub proof fn lemma_email_ends_in_domain_suffix(s: Seq<char>)
    requires
        is_email_address(s),
    ensures
        exists|dot: int|
            0 <= dot && dot + 2 < s.len() && s[dot] == '.' && forall|i: int|
                dot < i < s.len() ==> is_letter(#[trigger] s[i]),
{
    let (at, dot) = choose|at: int, dot: int| splits_as_email(s, at, dot);
    assert(s[dot] == '.');
}

/// Whether `argon2::PasswordHash::new` accepts the text as an encoded hash.
pub uninterp spec fn encoded_hash_parses(encoded: Seq<char>) -> bool;

/// Whether `Argon2::default().verify_password` accepts the password for the
/// hash that the text encodes.
pub uninterp spec fn argon2_accepts(password: Seq<char>, encoded: Seq<char>) -> bool;

/// What checking a password against an encoded hash comes to: nothing for a
/// malformed hash, else whether the hasher accepts the password.
pub open spec fn password_check(password: Seq<char>, encoded: Seq<char>) -> Option<bool> {
    if encoded_hash_parses(encoded) {
        Some(argon2_accepts(password, encoded))
    } else {
        None
    }
}

/// Hashes the password with `Argon2::default().hash_password` under a salt
/// drawn by `SaltString::generate` from the system's random source, and
/// renders the hash as text. Each call draws another salt, so nothing is said
/// of which text comes back. What is claimed is what the hasher's
/// documentation shows for every such text: it parses back as an encoded
/// hash, and the hasher accepts the same password for it. Drawing the salt
/// fails only where the system has no random source to draw from.
#[verifier::external_body]
fn hash_with_fresh_salt(password: &str) -> (r: Result<String, argon2::password_hash::Error>)
    ensures
        r matches Ok(encoded) ==> encoded_hash_parses(encoded@) && argon2_accepts(
            password@,
            encoded@,
        ),
{
    let salt = SaltString::generate(&mut OsRng);
    Argon2::default().hash_password(password.as_bytes(), &salt).map(|hash| hash.to_string())
}

/// Parses the text with `PasswordHash::new` and, where it parses, checks the
/// password against it with `Argon2::default().verify_password`. The outer
/// result is the parser's, the inner one the hasher's.
#[verifier::external_body]
fn check_against_hash(password: &str, encoded: &str) -> (r: Result<
    Result<(), argon2::password_hash::Error>,
    argon2::password_hash::Error,
>)
    ensures
        r is Ok <==> encoded_hash_parses(encoded@),
        r matches Ok(verdict) ==> (verdict is Ok <==> argon2_accepts(password@, encoded@)),
{
    PasswordHash::new(encoded).map(
        |hash| Argon2::default().verify_password(password.as_bytes(), &hash),
    )
}

/// Returns a salted hash of the password, encoded as text. The hash is
/// well-formed and verifies against the same password.
pub fn encrypt_password(password: &str) -> (r: Result<String, RusticError>)
    ensures
        match r {
            Ok(encoded) => password_check(password@, encoded@) == Some(true),
            Err(e) => e is HashingError,
        },
{
    match hash_with_fresh_salt(password) {
        Ok(encoded) => Ok(encoded),
        Err(e) => Err(RusticError::HashingError(Argon2Error(e))),
    }
}

/// Verifies the password against an encoded hash: `Ok(true)` where the hasher
/// accepts it, `Ok(false)` where it does not, and `HashingError` exactly where
/// the text is no well-formed encoded hash.
pub fn verify_password(password: &str, hash: &str) -> (r: Result<bool, RusticError>)
    ensures
        match r {
            Ok(accepted) => password_check(password@, hash@) == Some(accepted),
            Err(e) => password_check(password@, hash@) is None && e is HashingError,
        },
{
    match check_against_hash(password, hash) {
        Ok(verdict) => Ok(verdict.is_ok()),
        Err(e) => Err(RusticError::HashingError(Argon2Error(e))),
    }
}

} // verus!
