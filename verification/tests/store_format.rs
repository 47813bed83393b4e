use rustic_tasks::store::{encode_appended, encode_records, find_credentials, Credentials};
use rustic_tasks::todo_list::author::author_header_record;
use rustic_tasks::todo_list::task::task_header_record;
use rustic_tasks::{Author, LoginState, RusticError, Status, Task, Timestamp, ToDoList};

const AUTHOR_HEADER: &str = "id,name,email,password,created_on\n";
const TASK_HEADER: &str =
    "id,name,description,created_on,due_date,priority,status,labels,completed_on,created_by\n";

fn author(name: &str, email: &str, password: &str) -> Author {
    Author::build(name, email, password).expect("a valid author")
}

fn moment(at: &Timestamp) -> chrono::DateTime<chrono::FixedOffset> {
    chrono::DateTime::from_naive_utc_and_offset(at.utc, at.offset)
}

fn text_of(bytes: &[u8]) -> String {
    String::from_utf8(bytes.to_vec()).expect("a store holds text")
}

fn store_of(authors: &[&Author]) -> Vec<u8> {
    let mut store: Vec<u8> = Vec::new();
    for author in authors {
        let appended = author.write_to_csv(&store).expect("the store accepts the author");
        store.extend_from_slice(&appended);
    }
    store
}

fn row_of(author: &Author) -> Vec<u8> {
    encode_records(&vec![author.csv_record()]).expect("the record is encoded")
}

fn strings(fields: &[&str]) -> Vec<String> {
    fields.iter().map(|field| field.to_string()).collect()
}

fn malformed_row() -> Result<Credentials, csv::Error> {
    let mut reader = csv::ReaderBuilder::new()
        .has_headers(false)
        .from_reader("one,two\nthree\n".as_bytes());
    let failure = reader
        .records()
        .find_map(|record| record.err())
        .expect("rows of unequal length are refused");
    Err(failure)
}

fn well_formed_row(email: &str, password: &str) -> Result<Credentials, csv::Error> {
    Ok(Credentials { email: email.to_string(), password: password.to_string() })
}

#[test]
fn a_record_is_one_line_of_comma_separated_fields() {
    let bytes = encode_records(&vec![strings(&["a", "b", "c"])]).expect("encoded");
    assert_eq!(text_of(&bytes), "a,b,c\n");
}

#[test]
fn a_field_with_a_comma_or_a_quote_is_quoted() {
    let bytes = encode_records(&vec![strings(&["a,b", "say \"hi\"", "", "plain"])]).expect("encoded");
    assert_eq!(text_of(&bytes), "\"a,b\",\"say \"\"hi\"\"\",,plain\n");
}

#[test]
fn records_are_encoded_in_order() {
    let records = vec![strings(&["1", "one"]), strings(&["2", "two"]), strings(&["3", "three"])];
    assert_eq!(text_of(&encode_records(&records).expect("encoded")), "1,one\n2,two\n3,three\n");
    let none: Vec<Vec<String>> = vec![];
    assert_eq!(encode_records(&none).expect("encoded"), Vec::<u8>::new());
}

#[test]
fn the_header_goes_before_the_records_of_an_empty_store_only() {
    let header = strings(&["k", "v"]);
    let records = vec![strings(&["1", "one"])];
    assert_eq!(
        text_of(&encode_appended(true, header.clone(), records.clone()).expect("encoded")),
        "k,v\n1,one\n"
    );
    assert_eq!(
        text_of(&encode_appended(false, header.clone(), records).expect("encoded")),
        "1,one\n"
    );
    assert_eq!(encode_appended(true, header.clone(), vec![]).expect("encoded"), Vec::<u8>::new());
    assert_eq!(encode_appended(false, header, vec![]).expect("encoded"), Vec::<u8>::new());
}

#[test]
fn the_first_author_is_written_after_the_header() {
    let john = author("John", "john@example.com", "password123");
    let store = store_of(&[&john]);
    let text = text_of(&store);
    assert!(text.starts_with(AUTHOR_HEADER));
    assert_eq!(text.len(), AUTHOR_HEADER.len() + row_of(&john).len());
    assert!(store.ends_with(&row_of(&john)));
}

#[test]
fn later_authors_are_written_without_a_header() {
    let john = author("John", "john@example.com", "password123");
    let jane = author("Jane", "jane@example.com", "correct horse");
    let store = store_of(&[&john]);
    let appended = jane.write_to_csv(&store).expect("the store accepts the author");
    assert_eq!(appended, row_of(&jane));
    assert!(!text_of(&appended).contains("id,name"));
}

#[test]
fn an_author_row_holds_the_five_fields_in_order() {
    let john = author("John", "john@example.com", "password123");
    let fields = john.csv_record();
    assert_eq!(fields.len(), 5);
    assert_eq!(fields[0], john.get_id().hyphenated().to_string());
    assert_eq!(fields[1], "John");
    assert_eq!(fields[2], "john@example.com");
    assert_eq!(fields[3], john.get_password());
    let written = chrono::DateTime::parse_from_rfc3339(&fields[4]).expect("an RFC 3339 timestamp");
    assert_eq!(written, moment(john.get_created_on()));
    assert_eq!(written.offset(), &john.get_created_on().offset);
    assert_eq!(written.naive_utc(), john.get_created_on().utc);
    assert_eq!(fields[4], moment(john.get_created_on()).to_rfc3339());
    assert_eq!(fields[4], john.get_created_on().text());
}

#[test]
fn an_author_row_is_what_the_serializer_writes_for_its_texts() {
    let john = author("John, the \"first\"", "john@example.com", "password123");
    let mut writer = csv::WriterBuilder::new().has_headers(false).from_writer(Vec::new());
    writer
        .serialize((
            john.get_id(),
            john.get_name(),
            john.get_email(),
            john.get_password(),
            moment(john.get_created_on()).to_rfc3339(),
        ))
        .expect("serialized");
    let expected = writer.into_inner().expect("flushed");
    assert_eq!(row_of(&john), expected);
}

#[test]
fn a_registered_author_logs_in_from_any_place_in_the_store() {
    let john = author("John", "john@example.com", "password123");
    let jane = author("Jane", "jane@example.com", "correct horse");
    let joe = author("Joe", "joe@example.com", "battery staple");
    let store = store_of(&[&john, &jane, &joe]);
    assert_eq!(text_of(&store).lines().count(), 4);
    for (email, password) in [
        ("john@example.com", "password123"),
        ("jane@example.com", "correct horse"),
        ("joe@example.com", "battery staple"),
    ] {
        assert_eq!(Author::login(email, password, &store).expect("a state"), LoginState::LoggedIn);
        assert_eq!(
            Author::login(email, "guess", &store).expect("a state"),
            LoginState::InvalidCredentials
        );
    }
    assert_eq!(
        Author::login("jack@example.com", "password123", &store).expect("a state"),
        LoginState::DoesNotExist
    );
}

#[test]
fn a_store_with_a_header_only_or_nothing_holds_nobody() {
    for store in [AUTHOR_HEADER.as_bytes(), "".as_bytes()] {
        assert_eq!(
            Author::login("john@example.com", "password123", store).expect("a state"),
            LoginState::DoesNotExist
        );
    }
}

#[test]
fn the_first_row_with_the_address_decides() {
    let first = author("John", "john@example.com", "password123");
    let second = author("Johnny", "john@example.com", "another password");
    let mut store = store_of(&[&first]);
    store.extend_from_slice(&row_of(&second));

    assert_eq!(
        Author::login("john@example.com", "password123", &store).expect("a state"),
        LoginState::LoggedIn
    );
    assert_eq!(
        Author::login("john@example.com", "another password", &store).expect("a state"),
        LoginState::InvalidCredentials
    );
}

#[test]
fn a_malformed_row_before_the_address_is_an_error() {
    let john = author("John", "john@example.com", "password123");
    for broken in [
        "not-an-identifier,Jane,jane@example.com,hash,2024-06-10T16:00:00+05:30\n",
        "too,short\n",
        "6f1c1c3e-5b0a-4c3e-9f3a-2b1d4e5f6a7b,Jane,jane@example.com,hash,yesterday\n",
    ] {
        let mut store = AUTHOR_HEADER.as_bytes().to_vec();
        store.extend_from_slice(broken.as_bytes());
        store.extend_from_slice(&row_of(&john));
        assert!(
            matches!(
                Author::login("john@example.com", "password123", &store),
                Err(RusticError::CSVError(_))
            ),
            "{broken:?}"
        );
        assert!(
            matches!(john.write_to_csv(&store), Err(RusticError::CSVError(_))),
            "{broken:?}"
        );
    }
}

#[test]
fn a_malformed_row_after_the_address_is_not_looked_at() {
    let john = author("John", "john@example.com", "password123");
    let mut store = store_of(&[&john]);
    store.extend_from_slice(b"not-an-identifier,Jane,jane@example.com,hash,never\n");

    assert_eq!(
        Author::login("john@example.com", "password123", &store).expect("a state"),
        LoginState::LoggedIn
    );
    assert!(matches!(john.write_to_csv(&store), Err(RusticError::AuthorExists)));
    assert!(matches!(
        Author::login("jane@example.com", "password123", &store),
        Err(RusticError::CSVError(_))
    ));
}

#[test]
fn a_stored_password_that_is_no_hash_is_a_hashing_error() {
    let mut store = AUTHOR_HEADER.as_bytes().to_vec();
    store.extend_from_slice(
        b"6f1c1c3e-5b0a-4c3e-9f3a-2b1d4e5f6a7b,John,john@example.com,password123,2024-06-10T16:00:00+05:30\n",
    );
    assert!(matches!(
        Author::login("john@example.com", "password123", &store),
        Err(RusticError::HashingError(_))
    ));
    assert_eq!(
        Author::login("jane@example.com", "password123", &store).expect("a state"),
        LoginState::DoesNotExist
    );
}

#[test]
fn the_first_line_of_a_store_is_taken_for_its_header() {
    let john = author("John", "john@example.com", "password123");
    let headless = row_of(&john);
    assert_eq!(
        Author::login("john@example.com", "password123", &headless).expect("a state"),
        LoginState::DoesNotExist
    );
}

#[test]
fn the_scan_of_rows_stops_at_the_first_that_decides() {
    let rows = vec![
        well_formed_row("jane@example.com", "one"),
        well_formed_row("john@example.com", "two"),
        malformed_row(),
        well_formed_row("john@example.com", "three"),
    ];
    let found = find_credentials("john@example.com", rows).expect("found before the bad row");
    let found = found.expect("the address is there");
    assert_eq!(found.email, "john@example.com");
    assert_eq!(found.password, "two");

    let rows = vec![well_formed_row("jane@example.com", "one"), malformed_row()];
    assert!(find_credentials("john@example.com", rows).is_err());

    let rows = vec![well_formed_row("jane@example.com", "one")];
    assert!(find_credentials("john@example.com", rows).expect("no bad row").is_none());

    assert!(find_credentials("john@example.com", vec![]).expect("no bad row").is_none());
}

#[test]
fn signing_in_against_rows() {
    let john = author("John", "john@example.com", "password123");
    let rows = || {
        vec![
            well_formed_row("jane@example.com", "no hash at all"),
            well_formed_row("john@example.com", john.get_password()),
            malformed_row(),
        ]
    };
    assert_eq!(
        Author::login_among("john@example.com", "password123", rows()).expect("a state"),
        LoginState::LoggedIn
    );
    assert_eq!(
        Author::login_among("john@example.com", "password", rows()).expect("a state"),
        LoginState::InvalidCredentials
    );
    assert!(matches!(
        Author::login_among("jane@example.com", "password123", rows()),
        Err(RusticError::HashingError(_))
    ));
    assert!(matches!(
        Author::login_among("joe@example.com", "password123", rows()),
        Err(RusticError::CSVError(_))
    ));
    assert_eq!(
        Author::login_among("joe@example.com", "password123", vec![]).expect("a state"),
        LoginState::DoesNotExist
    );
}

#[test]
fn registering_against_rows() {
    let john = author("John", "john@example.com", "password123");
    let header_and_row = john.register_among(true, vec![]).expect("accepted");
    assert!(text_of(&header_and_row).starts_with(AUTHOR_HEADER));
    assert!(header_and_row.ends_with(&row_of(&john)));

    let others = vec![well_formed_row("jane@example.com", "one")];
    assert_eq!(john.register_among(false, others).expect("accepted"), row_of(&john));

    let taken = vec![well_formed_row("john@example.com", "one"), malformed_row()];
    assert!(matches!(john.register_among(false, taken), Err(RusticError::AuthorExists)));

    let broken = vec![malformed_row(), well_formed_row("john@example.com", "one")];
    assert!(matches!(john.register_among(false, broken), Err(RusticError::CSVError(_))));
}

#[test]
fn a_list_is_written_after_the_header_of_an_empty_store() {
    let john = author("John", "john@example.com", "password123");
    let mut list = ToDoList::build(john).expect("a list");
    let mut piano = Task::new(
        "Practice the piano",
        Some("Scales, then \"Clair de lune\""),
        Some("2024-06-10T16:00:00+05:30"),
        3,
        vec!["Music", "Piano"],
        list.get_author(),
    )
    .expect("a task");
    piano.update_status(Status::InProgress);
    piano.mark_completed();
    list.add(piano);
    list.add(Task::new("Rest", None, None, 9, vec![], list.get_author()).expect("a task"));

    let written = list.write_to_csv(0).expect("encoded");
    let text = text_of(&written);
    assert!(text.starts_with(TASK_HEADER));

    let mut reader = csv::ReaderBuilder::new().has_headers(true).from_reader(written.as_slice());
    let rows: Vec<csv::StringRecord> =
        reader.records().map(|row| row.expect("a well-formed row")).collect();
    assert_eq!(rows.len(), 2);
    let tasks = list.get_tasks();

    let first = &rows[0];
    assert_eq!(first.len(), 10);
    assert_eq!(&first[0], tasks[0].get_id().to_string());
    assert_eq!(&first[1], "Practice the piano");
    assert_eq!(&first[2], "Scales, then \"Clair de lune\"");
    assert_eq!(
        chrono::DateTime::parse_from_rfc3339(&first[3]).expect("a timestamp"),
        moment(tasks[0].get_created_on())
    );
    assert_eq!(
        chrono::DateTime::parse_from_rfc3339(&first[4]).expect("a timestamp").timestamp(),
        1_718_015_400
    );
    assert_eq!(&first[5], "High");
    assert_eq!(&first[6], "InProgress");
    assert_eq!(&first[7], "Music,Piano");
    assert_eq!(
        chrono::DateTime::parse_from_rfc3339(&first[8]).expect("a timestamp"),
        moment(tasks[0].get_completed_on().expect("completed"))
    );
    assert_eq!(&first[9], "John");

    let second = &rows[1];
    assert_eq!(second.len(), 10);
    assert_eq!(&second[1], "Rest");
    assert_eq!(&second[2], "");
    assert_eq!(&second[4], "");
    assert_eq!(&second[5], "Medium");
    assert_eq!(&second[6], "Pending");
    assert_eq!(&second[7], "");
    assert_eq!(&second[8], "");
    assert_eq!(&second[9], "John");
}

#[test]
fn a_task_record_holds_the_texts_of_its_times() {
    let john = author("John", "john@example.com", "password123");
    let mut task = Task::new(
        "Write a paper",
        None,
        Some("2024-06-10T16:00:00+05:30"),
        1,
        vec![],
        &john,
    )
    .expect("a task");

    let fields = task.csv_record();
    assert_eq!(fields.len(), 10);
    assert_eq!(fields[0], task.get_id().to_string());
    assert_eq!(fields[3], task.get_created_on().text());
    assert_eq!(fields[4], task.get_due_date().expect("a due date").text());
    assert_eq!(
        chrono::DateTime::parse_from_rfc3339(&fields[4]).expect("a timestamp").timestamp(),
        1_718_015_400
    );
    assert_eq!(fields[8], "");

    task.mark_completed();
    let fields = task.csv_record();
    assert_eq!(fields[8], task.get_completed_on().expect("completed").text());
    assert_ne!(fields[8], "");

    let undated = Task::new("Rest", None, None, 2, vec![], &john).expect("a task");
    let fields = undated.csv_record();
    assert_eq!(fields[3], undated.get_created_on().text());
    assert_eq!(fields[4], "");
    assert_eq!(fields[8], "");
}

#[test]
fn a_task_row_is_what_the_serializer_writes_for_its_texts() {
    let john = author("John", "john@example.com", "password123");
    let mut task = Task::new(
        "Write a paper",
        None,
        Some("2024-06-10T16:00:00+05:30"),
        1,
        vec!["Thesis", "a,b"],
        &john,
    )
    .expect("a task");
    task.mark_completed();

    let mut writer = csv::WriterBuilder::new().has_headers(false).from_writer(Vec::new());
    writer
        .serialize((
            task.get_id(),
            task.get_name(),
            task.get_description(),
            moment(task.get_created_on()).to_rfc3339(),
            task.get_due_date().map(|at| moment(at).to_rfc3339()),
            "Low",
            "Pending",
            "Thesis,a,b",
            task.get_completed_on().map(|at| moment(at).to_rfc3339()),
            task.get_created_by(),
        ))
        .expect("serialized");
    let expected = writer.into_inner().expect("flushed");
    assert_eq!(encode_records(&vec![task.csv_record()]).expect("encoded"), expected);
}

#[test]
fn a_list_is_written_without_a_header_to_a_store_that_holds_something() {
    let john = author("John", "john@example.com", "password123");
    let mut list = ToDoList::build(john).expect("a list");
    list.add(Task::new("Rest", None, None, 2, vec![], list.get_author()).expect("a task"));
    let first = list.write_to_csv(0).expect("encoded");
    let second = list.write_to_csv(first.len() as u64).expect("encoded");
    assert!(text_of(&first).starts_with(TASK_HEADER));
    assert_eq!(text_of(&first), format!("{TASK_HEADER}{}", text_of(&second)));
    assert_eq!(text_of(&second).lines().count(), 1);
}

#[test]
fn a_second_write_repeats_the_rows_of_the_first() {
    let john = author("John", "john@example.com", "password123");
    let mut list = ToDoList::build(john).expect("a list");
    let dated = Task::new(
        "Rest",
        None,
        Some("2024-06-10T16:00:00+05:30"),
        2,
        vec!["a", "b"],
        list.get_author(),
    )
    .expect("a task");
    list.add(dated);
    let plain = Task::new("Rest more", Some("much"), None, 3, vec![], list.get_author())
        .expect("a task");
    list.add(plain);

    let first = list.write_to_csv(0).expect("encoded");
    let second = list.write_to_csv(first.len() as u64).expect("encoded");
    let third = list.write_to_csv((first.len() + second.len()) as u64).expect("encoded");
    let mut expected = TASK_HEADER.as_bytes().to_vec();
    expected.extend_from_slice(&second);
    assert_eq!(first, expected);
    assert_eq!(second, third);
    assert_eq!(text_of(&second).lines().count(), 2);
}

#[test]
fn writing_a_list_twice_writes_every_task_twice() {
    let john = author("John", "john@example.com", "password123");
    let mut list = ToDoList::build(john).expect("a list");
    list.add(Task::new("Rest", None, None, 2, vec![], list.get_author()).expect("a task"));
    list.add(Task::new("Rest more", None, None, 2, vec![], list.get_author()).expect("a task"));

    let mut store: Vec<u8> = Vec::new();
    for _ in 0..2 {
        let appended = list.write_to_csv(store.len() as u64).expect("encoded");
        store.extend_from_slice(&appended);
    }
    let text = text_of(&store);
    let lines: Vec<&str> = text.lines().collect();
    assert_eq!(lines.len(), 5);
    assert_eq!(lines[1], lines[3]);
    assert_eq!(lines[2], lines[4]);
    assert_ne!(lines[1], lines[2]);
}

#[test]
fn an_empty_list_writes_nothing() {
    let list = ToDoList::build(author("John", "john@example.com", "password123")).expect("a list");
    assert_eq!(list.write_to_csv(0).expect("encoded"), Vec::<u8>::new());
    assert_eq!(list.write_to_csv(120).expect("encoded"), Vec::<u8>::new());
}

#[test]
fn the_author_header_names_the_five_columns() {
    let header = encode_records(&vec![author_header_record()]).expect("encoded");
    assert_eq!(text_of(&header), AUTHOR_HEADER);
}

#[test]
fn the_task_header_names_the_ten_columns() {
    let header = encode_records(&vec![task_header_record()]).expect("encoded");
    assert_eq!(text_of(&header), TASK_HEADER);
}
