//! Authors, and signing in against the author store.
//!
//! The author store is a CSV file with the header row
//! `id,name,email,password,created_on`. The password column holds the encoded
//! hash, never the password itself.

pub mod utils;

use vstd::prelude::*;
use uuid::Uuid;
use crate::error::RusticError;
use crate::stamp::{current_time, fresh_id, id_text, time_text, uuid_text, Timestamp};
use crate::store::{
    appended_bytes, author_rows, encode_appended, find_credentials, is_first_stop,
    lemma_absent_means_no_row_stops, lemma_first_stop_decides, lookup, read_author_rows,
    records_view, rows_view, texts, Credentials, CredentialsView, Lookup,
};
use crate::todo_list::author::utils::{
    encrypt_password, is_email_address, is_valid_email, password_check, verify_password,
    encoded_hash_parses,
};

verus! {

/// The outcome of an attempt to sign in.
#[derive(Debug, PartialEq, Eq, Structural)]
pub enum LoginState {
    /// The store holds the address and the password matches its hash.
    LoggedIn,
    /// No row of the store holds the address.
    DoesNotExist,
    /// The store holds the address and the password does not match.
    InvalidCredentials,
}

impl Default for LoginState {
    fn default() -> (state: Self)
        ensures
            state == LoginState::InvalidCredentials,
    {
        LoginState::InvalidCredentials
    }
}

/// Why an attempt to sign in gives no state.
pub enum LoginFailure {
    /// A malformed row comes before any row that holds the address.
    MalformedRow,
    /// The hash stored with the address is not a well-formed encoded hash.
    MalformedHash,
}

/// What signing in with the address and the password against the rows of a
/// store comes to. The first row that is malformed or holds the address
/// decides; later rows are not looked at.
pub open spec fn login_answer(
    rows: Seq<Option<CredentialsView>>,
    email: Seq<char>,
    password: Seq<char>,
) -> Result<LoginState, LoginFailure> {
    match lookup(rows, email) {
        Lookup::Absent => Ok(LoginState::DoesNotExist),
        Lookup::Malformed => Err(LoginFailure::MalformedRow),
        Lookup::Found(hash) => match password_check(password, hash) {
            Some(true) => Ok(LoginState::LoggedIn),
            Some(false) => Ok(LoginState::InvalidCredentials),
            None => Err(LoginFailure::MalformedHash),
        },
    }
}

/// The result reports the answer: the state itself, `CSVError` for a
/// malformed row, `HashingError` for a malformed hash.
pub open spec fn reports_login(
    r: Result<LoginState, RusticError>,
    answer: Result<LoginState, LoginFailure>,
) -> bool {
    match answer {
        Ok(state) => r matches Ok(reported) && reported == state,
        Err(LoginFailure::MalformedRow) => r matches Err(RusticError::CSVError(_)),
        Err(LoginFailure::MalformedHash) => r matches Err(RusticError::HashingError(_)),
    }
}

/// The header row of the author store.
pub open spec fn author_header() -> Seq<Seq<char>> {
    seq!["id"@, "name"@, "email"@, "password"@, "created_on"@]
}

/// The user of a to-do list.
#[derive(Debug)]
pub struct Author {
    id: Uuid,
    name: String,
    email: String,
    password: String,
    created_on: Timestamp,
}

/// What an author holds, the texts by their characters.
pub struct AuthorView {
    pub id: Uuid,
    pub name: Seq<char>,
    pub email: Seq<char>,
    pub password: Seq<char>,
    pub created_on: Timestamp,
}

impl View for Author {
    type V = AuthorView;

    closed spec fn view(&self) -> AuthorView {
        AuthorView {
            id: self.id,
            name: self.name@,
            email: self.email@,
            password: self.password@,
            created_on: self.created_on,
        }
    }
}

impl AuthorView {
    /// The address is an email address and the password is an encoded hash.
    pub open spec fn well_formed(self) -> bool {
        is_email_address(self.email) && encoded_hash_parses(self.password)
    }

    /// What a row of the store holds of this author for signing in.
    pub open spec fn credentials(self) -> CredentialsView {
        CredentialsView { email: self.email, password: self.password }
    }

    /// The record of the author for the store: the identifier as text, the
    /// name, the address, the password hash, and the time of creation as text.
    pub open spec fn record(self) -> Seq<Seq<char>> {
        seq![
            uuid_text(self.id),
            self.name,
            self.email,
            self.password,
            self.created_on.rfc3339(),
        ]
    }

    /// What `Author::write_to_csv` owes for this author and a store with
    /// these rows: `CSVError` where a malformed row comes before any row with
    /// the author's address, `AuthorExists` where a row with the address comes
    /// first, and else the bytes of the author's record, after those of the
    /// header where the store is empty.
    pub open spec fn registers(
        self,
        store_is_empty: bool,
        rows: Seq<Option<CredentialsView>>,
        r: Result<Vec<u8>, RusticError>,
    ) -> bool {
        match lookup(rows, self.email) {
            Lookup::Malformed => r matches Err(RusticError::CSVError(_)),
            Lookup::Found(_) => r matches Err(RusticError::AuthorExists),
            Lookup::Absent => match appended_bytes(
                store_is_empty,
                author_header(),
                seq![self.record()],
            ) {
                Some(bytes) => r matches Ok(out) && out@ == bytes,
                None => r matches Err(RusticError::CSVError(_)),
            },
        }
    }
}

/// The header row of the author store, as a record.
pub fn author_header_record() -> (header: Vec<String>)
    ensures
        texts(header@) == author_header(),
{
    let mut header: Vec<String> = Vec::new();
    header.push("id".to_owned());
    header.push("name".to_owned());
    header.push("email".to_owned());
    header.push("password".to_owned());
    header.push("created_on".to_owned());
    header
}

impl Author {
    #[verifier::type_invariant]
    closed spec fn holds_valid_credentials(self) -> bool {
        self@.well_formed()
    }

    /// Puts an author together from the parts. The caller answers for the
    /// address being an email address and the password being an encoded hash;
    /// `build` is the way to an author for who cannot.
    pub fn assemble(
        id: Uuid,
        name: &str,
        email: &str,
        password: String,
        created_on: Timestamp,
    ) -> (author: Self)
        requires
            is_email_address(email@),
            encoded_hash_parses(password@),
        ensures
            author@ == (AuthorView {
                id,
                name: name@,
                email: email@,
                password: password@,
                created_on,
            }),
    {
        Author { id, name: name.to_owned(), email: email.to_owned(), password, created_on }
    }

    /// Creates an author after validating the email address, with a fresh
    /// identifier and the current time as the time of creation. The password
    /// is kept as a salted hash only.
    pub fn build(name: &str, email: &str, password: &str) -> (r: Result<Self, RusticError>)
        ensures
            !is_email_address(email@) ==> r matches Err(RusticError::InvalidEmail),
            is_email_address(email@) ==> match r {
                Ok(author) => {
                    &&& author@.name == name@
                    &&& author@.email == email@
                    &&& password_check(password@, author@.password) == Some(true)
                    &&& author@.well_formed()
                },
                Err(e) => e is HashingError,
            },
    {
        let valid = match is_valid_email(email) {
            Ok(valid) => valid,
            Err(e) => {
                return Err(e);
            },
        };
        if !valid {
            return Err(RusticError::InvalidEmail);
        }
        let password = match encrypt_password(password) {
            Ok(encoded) => encoded,
            Err(e) => {
                return Err(e);
            },
        };
        Ok(Author::assemble(fresh_id(), name, email, password, current_time()))
    }

    /// The author's identifier.
    pub fn get_id(&self) -> (id: &Uuid)
        ensures
            *id == self@.id,
    {
        &self.id
    }

    /// The author's name.
    pub fn get_name(&self) -> (name: &String)
        ensures
            name@ == self@.name,
    {
        &self.name
    }

    /// The author's email address.
    pub fn get_email(&self) -> (email: &str)
        ensures
            email@ == self@.email,
            is_email_address(email@),
    {
        proof {
            use_type_invariant(self);
        }
        self.email.as_str()
    }

    /// The author's password, as an encoded hash.
    pub fn get_password(&self) -> (password: &str)
        ensures
            password@ == self@.password,
            encoded_hash_parses(password@),
    {
        proof {
            use_type_invariant(self);
        }
        self.password.as_str()
    }

    /// The time at which the author was created.
    pub fn get_created_on(&self) -> (created_on: &Timestamp)
        ensures
            *created_on == self@.created_on,
    {
        &self.created_on
    }

    /// Signs in against the bytes of an author store. The rows are scanned in
    /// order and the first that is malformed or holds the address decides:
    /// a malformed row gives `CSVError`; a row with the address gives
    /// `LoggedIn` where the password verifies against its hash,
    /// `InvalidCredentials` where it does not, and `HashingError` where the
    /// hash is malformed. Where no row decides, the state is `DoesNotExist`.
    pub fn login(email: &str, password: &str, store: &[u8]) -> (r: Result<LoginState, RusticError>)
        ensures
            reports_login(r, login_answer(author_rows(store@), email@, password@)),
    {
        let rows = read_author_rows(store, true);
        Author::login_among(email, password, rows)
    }

    /// Signs in against the rows of an author store, as `login` does against
    /// its bytes.
    pub fn login_among(
        email: &str,
        password: &str,
        rows: Vec<Result<Credentials, csv::Error>>,
    ) -> (r: Result<LoginState, RusticError>)
        ensures
            reports_login(r, login_answer(rows_view(rows@), email@, password@)),
    {
        match find_credentials(email, rows) {
            Err(e) => Err(RusticError::CSVError(e)),
            Ok(None) => Ok(LoginState::DoesNotExist),
            Ok(Some(found)) => match verify_password(password, found.password.as_str()) {
                Ok(true) => Ok(LoginState::LoggedIn),
                Ok(false) => Ok(LoginState::InvalidCredentials),
                Err(e) => Err(e),
            },
        }
    }

    /// The record of the author for the store: identifier, name, email
    /// address, password hash and time of creation.
    pub fn csv_record(&self) -> (fields: Vec<String>)
        ensures
            texts(fields@) == self@.record(),
    {
        let mut fields: Vec<String> = Vec::new();
        fields.push(id_text(&self.id));
        fields.push(self.name.clone());
        fields.push(self.email.clone());
        fields.push(self.password.clone());
        fields.push(time_text(&self.created_on));
        fields
    }

    /// Registers the author with a store, given the bytes of the store, and
    /// returns the bytes to append to it: one record of the author, after the
    /// header where the store is empty. The rows of the store are scanned in
    /// order first: a row with the author's address gives `AuthorExists`, a
    /// malformed row before any such row gives `CSVError`.
    pub fn write_to_csv(&self, store: &[u8]) -> (r: Result<Vec<u8>, RusticError>)
        ensures
            self@.registers(store@.len() == 0, author_rows(store@), r),
    {
        let is_empty = store.len() == 0;
        let rows = read_author_rows(store, !is_empty);
        self.register_among(is_empty, rows)
    }

    /// Registers the author with a store, given the rows of the store and
    /// whether the store is empty, as `write_to_csv` does given its bytes.
    pub fn register_among(
        &self,
        store_is_empty: bool,
        rows: Vec<Result<Credentials, csv::Error>>,
    ) -> (r: Result<Vec<u8>, RusticError>)
        ensures
            self@.registers(store_is_empty, rows_view(rows@), r),
    {
        match find_credentials(self.email.as_str(), rows) {
            Err(e) => Err(RusticError::CSVError(e)),
            Ok(Some(_)) => Err(RusticError::AuthorExists),
            Ok(None) => {
                let mut records: Vec<Vec<String>> = Vec::new();
                records.push(self.csv_record());
                assert(records_view(records@) == seq![self@.record()]);
                encode_appended(store_is_empty, author_header_record(), records)
            },
        }
    }
}

/// A store without bytes holds nobody: whoever signs in against it does not
/// exist, and it refuses no author for the address.
pub proof fn lemma_fresh_store_holds_nobody(store: Seq<u8>, email: Seq<char>, password: Seq<char>)
    requires
        store.len() == 0,
    ensures
        lookup(author_rows(store), email) is Absent,
        login_answer(author_rows(store), email, password) == Ok::<LoginState, LoginFailure>(
            LoginState::DoesNotExist,
        ),
{
    lemma_absent_means_no_row_stops(author_rows(store), email);
}

/// An author who was registered with a store signs in against it. Take a
/// store that accepts the author, one whose rows do not stop a scan for the
/// address, and put the author's row after its rows. Then the address is
/// found with the author's hash, and signing in with a password that the hash
/// verifies gives `LoggedIn`.
pub proof fn lemma_registered_author_logs_in(
    rows: Seq<Option<CredentialsView>>,
    author: AuthorView,
    password: Seq<char>,
)
    requires
        lookup(rows, author.email) is Absent,
    ensures
        lookup(rows.push(Some(author.credentials())), author.email) == Lookup::Found(
            author.password,
        ),
        password_check(password, author.password) == Some(true) ==> login_answer(
            rows.push(Some(author.credentials())),
            author.email,
            password,
        ) == Ok::<LoginState, LoginFailure>(LoginState::LoggedIn),
{
    let after = rows.push(Some(author.credentials()));
    lemma_absent_means_no_row_stops(rows, author.email);
    // No earlier row stops the scan, and the new row holds the address.
    assert(forall|j: int| 0 <= j < rows.len() ==> #[trigger] after[j] == rows[j]);
    assert(is_first_stop(after, author.email, rows.len() as int));
    lemma_first_stop_decides(after, author.email, rows.len() as int);
}

/// Registering the same address twice is refused the second time. Take a
/// store that accepts an author, and put the author's row after its rows.
/// Then what `Author::write_to_csv` owes for an author with the same address
/// and the new rows is `AuthorExists`.
pub proof fn lemma_second_registration_is_refused(
    rows: Seq<Option<CredentialsView>>,
    author: AuthorView,
    again: AuthorView,
    store_is_empty: bool,
    r: Result<Vec<u8>, RusticError>,
)
    requires
        lookup(rows, author.email) is Absent,
        again.email == author.email,
        again.registers(store_is_empty, rows.push(Some(author.credentials())), r),
    ensures
        r matches Err(RusticError::AuthorExists),
{
    lemma_registered_author_logs_in(rows, author, Seq::empty());
}

} // verus!
