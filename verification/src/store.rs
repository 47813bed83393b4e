//! The CSV stores: what their rows hold, and how records become bytes.
//!
//! A store is a CSV file with a header row, to which rows are only ever
//! appended. The library reads a store from its bytes and hands back the
//! bytes to append.

use vstd::prelude::*;
use chrono::{DateTime, Local};
use uuid::Uuid;
use crate::error::RusticError;

verus! {

/// What a row of the author store holds for signing in.
#[derive(Debug)]
pub struct Credentials {
    /// The author's email address.
    pub email: String,
    /// The author's password, as an encoded hash.
    pub password: String,
}

/// The texts of a `Credentials`.
pub struct CredentialsView {
    pub email: Seq<char>,
    pub password: Seq<char>,
}

impl View for Credentials {
    type V = CredentialsView;

    open spec fn view(&self) -> CredentialsView {
        CredentialsView { email: self.email@, password: self.password@ }
    }
}

/// A row as the reader hands it out: the credentials it holds, or the reader's
/// complaint about it.
pub open spec fn row_view(row: Result<Credentials, csv::Error>) -> Option<CredentialsView> {
    match row {
        Ok(credentials) => Some(credentials@),
        Err(_) => None,
    }
}

/// The rows as the reader hands them out, each by its view.
pub open spec fn rows_view(rows: Seq<Result<Credentials, csv::Error>>) -> Seq<
    Option<CredentialsView>,
> {
    rows.map_values(|row: Result<Credentials, csv::Error>| row_view(row))
}

/// The texts of a record's fields.
pub open spec fn texts(fields: Seq<String>) -> Seq<Seq<char>> {
    fields.map_values(|field: String| field@)
}

/// The rows that the `csv` reader finds in the bytes of an author store, in
/// order: for each row the email address and the password hash that it holds,
/// or nothing where the row is malformed. With `has_headers` the first row is
/// the header and is not among them.
pub uninterp spec fn csv_author_rows(data: Seq<u8>, has_headers: bool) -> Seq<
    Option<CredentialsView>,
>;

/// The bytes that the `csv` writer makes of one record, or nothing where it
/// refuses the record.
pub uninterp spec fn csv_record_bytes(fields: Seq<Seq<char>>) -> Option<Seq<u8>>;

/// Reads the bytes of an author store with a `csv::Reader` made by
/// `ReaderBuilder::has_headers` and `from_reader`, and takes each row apart
/// with `Reader::into_deserialize` as an identifier, a name, an email address,
/// a password hash and a timestamp, in this order. A row that the reader or
/// one of the five fields refuses comes out as the reader's error. Of the
/// others the email address and the password hash are handed on. The rows
/// that come out are the ones that `csv_author_rows` names for the bytes, and
/// from no bytes the reader makes no row.
#[verifier::external_body]
pub(crate) fn read_author_rows(data: &[u8], has_headers: bool) -> (rows: Vec<
    Result<Credentials, csv::Error>,
>)
    ensures
        rows_view(rows@) == csv_author_rows(data@, has_headers),
        data@.len() == 0 ==> rows@.len() == 0,
{
    csv::ReaderBuilder::new()
        .has_headers(has_headers)
        .from_reader(data)
        .into_deserialize::<(Uuid, String, String, String, DateTime<Local>)>()
        .map(|row| row.map(|(_, _, email, password, _)| Credentials { email, password }))
        .collect()
}

/// The rows of the author store with these bytes: none for a store without
/// bytes, and else the rows that the reader finds after the header row.
pub open spec fn author_rows(store: Seq<u8>) -> Seq<Option<CredentialsView>> {
    if store.len() == 0 {
        Seq::empty()
    } else {
        csv_author_rows(store, true)
    }
}

/// Writes one record with `csv::Writer::write_record` into an empty buffer
/// and takes the buffer back with `Writer::into_inner`. The bytes that come
/// out are the ones that `csv_record_bytes` names for the fields, and the
/// writer fails exactly where that names none.
#[verifier::external_body]
pub(crate) fn encode_record(fields: &Vec<String>) -> (r: Result<Vec<u8>, csv::Error>)
    ensures
        match r {
            Ok(bytes) => csv_record_bytes(texts(fields@)) == Some(bytes@),
            Err(_) => csv_record_bytes(texts(fields@)) is None,
        },
{
    let mut writer = csv::Writer::from_writer(Vec::new());
    writer.write_record(fields)?;
    writer.into_inner().map_err(|e| csv::Error::from(e.into_error()))
}

/// What a scan of the rows for an email address comes to.
pub enum Lookup {
    /// Every row is well-formed and none holds the address.
    Absent,
    /// A malformed row comes before any row that holds the address.
    Malformed,
    /// The first row that holds the address comes before any malformed row,
    /// and holds this password hash.
    Found(Seq<char>),
}

/// The scan stops at this row: the row is malformed, or it holds the address.
pub open spec fn stops_scan(row: Option<CredentialsView>, email: Seq<char>) -> bool {
    match row {
        None => true,
        Some(credentials) => credentials.email == email,
    }
}

/// Row `i` is the first at which the scan stops.
pub open spec fn is_first_stop(rows: Seq<Option<CredentialsView>>, email: Seq<char>, i: int) -> bool {
    &&& 0 <= i < rows.len()
    &&& stops_scan(rows[i], email)
    &&& forall|j: int| 0 <= j < i ==> !stops_scan(#[trigger] rows[j], email)
}

/// The first row at which the scan stops, where it stops at all.
pub open spec fn first_stop(rows: Seq<Option<CredentialsView>>, email: Seq<char>) -> int {
    choose|i: int| is_first_stop(rows, email, i)
}

/// The outcome of scanning the rows in order for an email address: the first
/// row that is malformed or holds the address decides.
pub open spec fn lookup(rows: Seq<Option<CredentialsView>>, email: Seq<char>) -> Lookup {
    if exists|i: int| is_first_stop(rows, email, i) {
        match rows[first_stop(rows, email)] {
            None => Lookup::Malformed,
            Some(credentials) => Lookup::Found(credentials.password),
        }
    } else {
        Lookup::Absent
    }
}

/// Where the scan stops at some row, there is a first row at which it stops.
proof fn lemma_first_stop_exists(rows: Seq<Option<CredentialsView>>, email: Seq<char>, j: int)
    requires
        0 <= j < rows.len(),
        stops_scan(rows[j], email),
    ensures
        exists|i: int| is_first_stop(rows, email, i),
    decreases j,
{
    if exists|k: int| 0 <= k < j && stops_scan(#[trigger] rows[k], email) {
        let k = choose|k: int| 0 <= k < j && stops_scan(#[trigger] rows[k], email);
        lemma_first_stop_exists(rows, email, k);
    } else {
        assert(is_first_stop(rows, email, j));
    }
}

/// An address is absent from the rows exactly where every row is well-formed
/// and holds another address.
pub proof fn lemma_absent_means_no_row_stops(rows: Seq<Option<CredentialsView>>, email: Seq<char>)
    ensures
        lookup(rows, email) is Absent <==> forall|j: int|
            0 <= j < rows.len() ==> !stops_scan(#[trigger] rows[j], email),
{
    if exists|j: int| 0 <= j < rows.len() && stops_scan(#[trigger] rows[j], email) {
        let j = choose|j: int| 0 <= j < rows.len() && stops_scan(#[trigger] rows[j], email);
        lemma_first_stop_exists(rows, email, j);
    }
}

/// The row at which the scan first stops decides the lookup.
pub proof fn lemma_first_stop_decides(rows: Seq<Option<CredentialsView>>, email: Seq<char>, i: int)
    requires
        is_first_stop(rows, email, i),
    ensures
        first_stop(rows, email) == i,
        lookup(rows, email) == match rows[i] {
            None => Lookup::Malformed,
            Some(credentials) => Lookup::Found(credentials.password),
        },
{
    // Two first stops cannot differ: the later one has the earlier before it.
    let k = first_stop(rows, email);
    assert(is_first_stop(rows, email, k));
    assert(!(k < i) && !(i < k));
}

/// Scans the rows in order for the email address and stops at the first row
/// that is malformed or holds the address. A malformed row gives its error,
/// a row with the address its credentials.
pub fn find_credentials(email: &str, rows: Vec<Result<Credentials, csv::Error>>) -> (r: Result<
    Option<Credentials>,
    csv::Error,
>)
    ensures
        match lookup(rows_view(rows@), email@) {
            Lookup::Absent => r matches Ok(None),
            Lookup::Malformed => r matches Err(e) && rows@[first_stop(rows_view(rows@), email@)]
                == Err::<Credentials, csv::Error>(e),
            Lookup::Found(hash) => r matches Ok(Some(found)) && found@.email == email@
                && found@.password == hash,
        },
{
    let ghost model = rows_view(rows@);
    let wanted = email.to_owned();
    for row in it: rows
        invariant
            model == rows_view(rows@),
            it.seq() == rows@,
            wanted@ == email@,
            forall|j: int| 0 <= j < it.index() ==> !stops_scan(#[trigger] model[j], email@),
    {
        let ghost i = it.index() as int;
        match row {
            Err(e) => {
                proof {
                    lemma_first_stop_decides(model, email@, i);
                }
                return Err(e);
            },
            Ok(credentials) => {
                if credentials.email == wanted {
                    proof {
                        lemma_first_stop_decides(model, email@, i);
                    }
                    return Ok(Some(credentials));
                }
            },
        }
    }
    Ok(None)
}

/// The texts of the fields of each record.
pub open spec fn records_view(records: Seq<Vec<String>>) -> Seq<Seq<Seq<char>>> {
    records.map_values(|record: Vec<String>| texts(record@))
}

/// The bytes of the records, one after the other, or nothing where the writer
/// refuses one of them.
pub open spec fn records_bytes(records: Seq<Seq<Seq<char>>>) -> Option<Seq<u8>>
    decreases records.len(),
{
    if records.len() == 0 {
        Some(Seq::empty())
    } else {
        match (records_bytes(records.drop_last()), csv_record_bytes(records.last())) {
            (Some(head), Some(tail)) => Some(head + tail),
            _ => None,
        }
    }
}

/// What is appended to a store for the records: their bytes, after those of
/// the header where the store is empty and there is a record to write.
pub open spec fn appended_bytes(
    store_is_empty: bool,
    header: Seq<Seq<char>>,
    records: Seq<Seq<Seq<char>>>,
) -> Option<Seq<u8>> {
    if store_is_empty && records.len() > 0 {
        records_bytes(seq![header] + records)
    } else {
        records_bytes(records)
    }
}

/// The bytes of a record followed by those of further records, or nothing
/// where the writer refuses one of them.
pub open spec fn bytes_after(head: Option<Seq<u8>>, rest: Option<Seq<u8>>) -> Option<Seq<u8>> {
    match (head, rest) {
        (Some(head), Some(rest)) => Some(head + rest),
        _ => None,
    }
}

/// The bytes of records that begin with a given record are the bytes of that
/// record followed by the bytes of the others.
pub proof fn lemma_first_record_leads(first: Seq<Seq<char>>, rest: Seq<Seq<Seq<char>>>)
    ensures
        records_bytes(seq![first] + rest) == bytes_after(
            csv_record_bytes(first),
            records_bytes(rest),
        ),
    decreases rest.len(),
{
    let all = seq![first] + rest;
    let none = Seq::<Seq<Seq<char>>>::empty();
    assert(records_bytes(none) == Some(Seq::<u8>::empty()));
    if rest.len() == 0 {
        assert(rest == none);
        assert(all.drop_last() == none);
        assert(all.last() == first);
        if csv_record_bytes(first) is Some {
            let head = csv_record_bytes(first)->Some_0;
            assert(Seq::<u8>::empty() + head == head + Seq::<u8>::empty());
        }
    } else {
        lemma_first_record_leads(first, rest.drop_last());
        assert(all.drop_last() == seq![first] + rest.drop_last());
        assert(all.last() == rest.last());
        if csv_record_bytes(first) is Some && records_bytes(rest) is Some {
            let head = csv_record_bytes(first)->Some_0;
            let middle = records_bytes(rest.drop_last())->Some_0;
            let tail = csv_record_bytes(rest.last())->Some_0;
            assert((head + middle) + tail == head + (middle + tail));
        }
    }
}

/// Where the writer refuses a record among the first `k`, it refuses the
/// records as a whole.
proof fn lemma_refused_prefix(records: Seq<Seq<Seq<char>>>, k: int)
    requires
        0 <= k <= records.len(),
        records_bytes(records.take(k)) is None,
    ensures
        records_bytes(records) is None,
    decreases records.len() - k,
{
    if k < records.len() {
        assert(records.take(k + 1).drop_last() == records.take(k));
        lemma_refused_prefix(records, k + 1);
    } else {
        assert(records.take(k) == records);
    }
}

/// Encodes the records in order, each as one row.
pub fn encode_records(records: &Vec<Vec<String>>) -> (r: Result<Vec<u8>, RusticError>)
    ensures
        match records_bytes(records_view(records@)) {
            Some(bytes) => r matches Ok(out) && out@ == bytes,
            None => r matches Err(RusticError::CSVError(_)),
        },
{
    let ghost model = records_view(records@);
    let mut out: Vec<u8> = Vec::new();
    let mut i: usize = 0;
    while i < records.len()
        invariant
            i <= records@.len(),
            model == records_view(records@),
            records_bytes(model.take(i as int)) == Some(out@),
        decreases records@.len() - i,
    {
        proof {
            assert(model.take(i + 1).drop_last() == model.take(i as int));
        }
        match encode_record(&records[i]) {
            Ok(mut bytes) => {
                out.append(&mut bytes);
            },
            Err(e) => {
                proof {
                    lemma_refused_prefix(model, i + 1);
                }
                return Err(RusticError::CSVError(e));
            },
        }
        i += 1;
    }
    assert(model.take(i as int) == model);
    Ok(out)
}

/// Encodes what is appended to a store for the records: the header first
/// where the store is empty and there is a record to write, then the records.
pub fn encode_appended(store_is_empty: bool, header: Vec<String>, records: Vec<Vec<String>>) -> (r:
    Result<Vec<u8>, RusticError>)
    ensures
        match appended_bytes(store_is_empty, texts(header@), records_view(records@)) {
            Some(bytes) => r matches Ok(out) && out@ == bytes,
            None => r matches Err(RusticError::CSVError(_)),
        },
{
    if store_is_empty && records.len() > 0 {
        let mut rows: Vec<Vec<String>> = Vec::new();
        rows.push(header);
        let mut records = records;
        let ghost given = records@;
        rows.append(&mut records);
        assert(records_view(rows@) == seq![texts(header@)] + records_view(given));
        encode_records(&rows)
    } else {
        encode_records(&records)
    }
}

} // verus!
