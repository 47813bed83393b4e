//! Tasks.
//!
//! A task store is a CSV file with the header row
//! `id,name,description,created_on,due_date,priority,status,labels,completed_on,created_by`.
//! A field that the task does not have is written as the empty text, the
//! labels as one text joined by commas, the priority and the status by name.

pub mod utils;

use vstd::prelude::*;
use uuid::Uuid;
use crate::error::RusticError;
use crate::stamp::{
    current_time, fresh_id, id_text, optional_text, time_text, uuid_text, Timestamp,
};
use crate::store::texts;
use crate::todo_list::author::Author;
use crate::todo_list::task::utils::{
    comma_joined, due_date_utc, is_due_date, parse_due_date, serialize_labels,
};

verus! {

/// How urgent a task is.
#[derive(Debug, Clone, Copy, PartialEq, Eq, Structural)]
pub enum Priority {
    Low,
    Medium,
    High,
}

impl Priority {
    /// The priority that a code stands for: 1 is low, 2 is medium, 3 is high,
    /// and every other code is medium.
    pub open spec fn of_code(value: u32) -> Priority {
        if value == 1 {
            Priority::Low
        } else if value == 3 {
            Priority::High
        } else {
            Priority::Medium
        }
    }

    /// The name under which the priority is written to a store.
    pub open spec fn label(self) -> Seq<char> {
        match self {
            Priority::Low => "Low"@,
            Priority::Medium => "Medium"@,
            Priority::High => "High"@,
        }
    }

    /// Returns the priority that the code stands for. A code other than 1, 2
    /// or 3 is no error: it gives the medium priority.
    pub fn set(value: u32) -> (priority: Self)
        ensures
            priority == Priority::of_code(value),
    {
        match value {
            1 => Priority::Low,
            2 => Priority::Medium,
            3 => Priority::High,
            _ => Priority::Medium,
        }
    }

    /// The name under which the priority is written to a store.
    pub fn as_str(&self) -> (name: &'static str)
        ensures
            name@ == self.label(),
    {
        match self {
            Priority::Low => "Low",
            Priority::Medium => "Medium",
            Priority::High => "High",
        }
    }
}

impl Default for Priority {
    fn default() -> (priority: Self)
        ensures
            priority == Priority::Medium,
    {
        Priority::Medium
    }
}

/// How far a task has come.
#[derive(Debug, Clone, Copy, PartialEq, Eq, Structural)]
pub enum Status {
    Pending,
    InProgress,
    Complete,
}

impl Status {
    /// The name under which the status is written to a store.
    pub open spec fn label(self) -> Seq<char> {
        match self {
            Status::Pending => "Pending"@,
            Status::InProgress => "InProgress"@,
            Status::Complete => "Complete"@,
        }
    }

    /// The name under which the status is written to a store.
    pub fn as_str(&self) -> (name: &'static str)
        ensures
            name@ == self.label(),
    {
        match self {
            Status::Pending => "Pending",
            Status::InProgress => "InProgress",
            Status::Complete => "Complete",
        }
    }
}

impl Default for Status {
    fn default() -> (status: Self)
        ensures
            status == Status::Pending,
    {
        Status::Pending
    }
}

/// The header row of a task store.
pub open spec fn task_header() -> Seq<Seq<char>> {
    seq![
        "id"@,
        "name"@,
        "description"@,
        "created_on"@,
        "due_date"@,
        "priority"@,
        "status"@,
        "labels"@,
        "completed_on"@,
        "created_by"@,
    ]
}

/// The header row of a task store, as a record.
pub fn task_header_record() -> (header: Vec<String>)
    ensures
        texts(header@) == task_header(),
{
    let mut header: Vec<String> = Vec::new();
    header.push("id".to_owned());
    header.push("name".to_owned());
    header.push("description".to_owned());
    header.push("created_on".to_owned());
    header.push("due_date".to_owned());
    header.push("priority".to_owned());
    header.push("status".to_owned());
    header.push("labels".to_owned());
    header.push("completed_on".to_owned());
    header.push("created_by".to_owned());
    header
}

/// One item of a to-do list.
#[derive(Debug)]
pub struct Task {
    id: Uuid,
    name: String,
    description: Option<String>,
    created_on: Timestamp,
    due_date: Option<Timestamp>,
    priority: Priority,
    status: Status,
    labels: Vec<String>,
    completed_on: Option<Timestamp>,
    created_by: String,
}

/// What a task holds, the texts by their characters.
pub struct TaskView {
    pub id: Uuid,
    pub name: Seq<char>,
    pub description: Option<Seq<char>>,
    pub created_on: Timestamp,
    pub due_date: Option<Timestamp>,
    pub priority: Priority,
    pub status: Status,
    pub labels: Seq<Seq<char>>,
    pub completed_on: Option<Timestamp>,
    pub created_by: Seq<char>,
}

/// The characters of each text.
pub open spec fn str_texts(items: Seq<&str>) -> Seq<Seq<char>> {
    items.map_values(|item: &str| item@)
}

/// The characters of the text, where there is one.
pub open spec fn opt_text(item: Option<&str>) -> Option<Seq<char>> {
    match item {
        Some(text) => Some(text@),
        None => None,
    }
}

/// There is no due date, or the text is a due date.
pub open spec fn is_acceptable_due_date(due_date: Option<&str>) -> bool {
    match due_date {
        Some(text) => is_due_date(text@),
        None => true,
    }
}

impl View for Task {
    type V = TaskView;

    closed spec fn view(&self) -> TaskView {
        TaskView {
            id: self.id,
            name: self.name@,
            description: match self.description {
                Some(text) => Some(text@),
                None => None,
            },
            created_on: self.created_on,
            due_date: self.due_date,
            priority: self.priority,
            status: self.status,
            labels: texts(self.labels@),
            completed_on: self.completed_on,
            created_by: self.created_by@,
        }
    }
}

impl TaskView {
    /// The record of the task for a store: ten fields, in the order of the
    /// header. The identifier and the times are written by their text, the
    /// priority and the status by name, the labels joined by commas. A
    /// description, a due date or a time of completion that the task does not
    /// have is written as the empty text.
    pub open spec fn record(self) -> Seq<Seq<char>> {
        seq![
            uuid_text(self.id),
            self.name,
            match self.description {
                Some(text) => text,
                None => Seq::empty(),
            },
            self.created_on.rfc3339(),
            optional_text(self.due_date),
            self.priority.label(),
            self.status.label(),
            comma_joined(self.labels),
            optional_text(self.completed_on),
            self.created_by,
        ]
    }
}

/// The due date of a task is the one that the text stands for, where there
/// is a text, and the task has none where there is none.
pub open spec fn is_due_date_of(due_date: Option<Timestamp>, text: Option<&str>) -> bool {
    match (due_date, text) {
        (Some(at), Some(text)) => due_date_utc(text@) == Some(at.utc),
        (None, None) => true,
        _ => false,
    }
}

/// Copies each text into a `String`.
fn owned_texts(items: &Vec<&str>) -> (owned: Vec<String>)
    ensures
        texts(owned@) == str_texts(items@),
{
    let mut owned: Vec<String> = Vec::new();
    let mut i: usize = 0;
    while i < items.len()
        invariant
            i <= items@.len(),
            owned@.len() == i,
            forall|j: int| 0 <= j < i ==> (#[trigger] owned@[j])@ == items@[j]@,
        decreases items@.len() - i,
    {
        owned.push(items[i].to_owned());
        i += 1;
    }
    owned
}

/// The timestamp as text where there is one, and the empty text where there
/// is none.
fn optional_time_text(at: &Option<Timestamp>) -> (text: String)
    ensures
        text@ == optional_text(*at),
{
    match at {
        Some(at) => time_text(at),
        None => String::new(),
    }
}

impl Task {
    /// Puts a task together from its parts: a pending task, not completed,
    /// with the priority that the code stands for.
    pub fn assemble(
        id: Uuid,
        created_on: Timestamp,
        name: &str,
        description: Option<&str>,
        due_date: Option<Timestamp>,
        priority: u32,
        labels: Vec<&str>,
        created_by: &str,
    ) -> (task: Self)
        ensures
            task@ == (TaskView {
                id,
                name: name@,
                description: opt_text(description),
                created_on,
                due_date,
                priority: Priority::of_code(priority),
                status: Status::Pending,
                labels: str_texts(labels@),
                completed_on: None,
                created_by: created_by@,
            }),
    {
        let description = match description {
            Some(text) => Some(text.to_owned()),
            None => None,
        };
        Task {
            id,
            name: name.to_owned(),
            description,
            created_on,
            due_date,
            priority: Priority::set(priority),
            status: Status::Pending,
            labels: owned_texts(&labels),
            completed_on: None,
            created_by: created_by.to_owned(),
        }
    }

    /// Creates a task for the author, with a fresh identifier and the current
    /// time as its time of creation. The task starts pending and not
    /// completed. A due date that is no due date is refused with
    /// `DateParserError`; a priority code other than 1, 2 or 3 gives the
    /// medium priority.
    pub fn new(
        name: &str,
        description: Option<&str>,
        due_date: Option<&str>,
        priority: u32,
        labels: Vec<&str>,
        author: &Author,
    ) -> (r: Result<Self, RusticError>)
        ensures
            match r {
                Ok(task) => {
                    &&& is_acceptable_due_date(due_date)
                    &&& task@.name == name@
                    &&& task@.description == opt_text(description)
                    &&& is_due_date_of(task@.due_date, due_date)
                    &&& task@.priority == Priority::of_code(priority)
                    &&& task@.status == Status::Pending
                    &&& task@.labels == str_texts(labels@)
                    &&& task@.completed_on is None
                    &&& task@.created_by == author@.name
                },
                Err(e) => !is_acceptable_due_date(due_date) && e is DateParserError,
            },
    {
        let due_date = match due_date {
            Some(text) => match parse_due_date(text) {
                Ok(at) => Some(at),
                Err(e) => {
                    return Err(e);
                },
            },
            None => None,
        };
        Ok(
            Task::assemble(
                fresh_id(),
                current_time(),
                name,
                description,
                due_date,
                priority,
                labels,
                author.get_name().as_str(),
            ),
        )
    }

    /// The task's identifier.
    pub fn get_id(&self) -> (id: &Uuid)
        ensures
            *id == self@.id,
    {
        &self.id
    }

    /// The task's name.
    pub fn get_name(&self) -> (name: &str)
        ensures
            name@ == self@.name,
    {
        self.name.as_str()
    }

    /// The task's description, where it has one.
    pub fn get_description(&self) -> (description: Option<&str>)
        ensures
            opt_text(description) == self@.description,
    {
        match &self.description {
            Some(text) => Some(text.as_str()),
            None => None,
        }
    }

    /// The time at which the task was created.
    pub fn get_created_on(&self) -> (created_on: &Timestamp)
        ensures
            *created_on == self@.created_on,
    {
        &self.created_on
    }

    /// The task's due date, where it has one.
    pub fn get_due_date(&self) -> (due_date: Option<&Timestamp>)
        ensures
            match due_date {
                Some(at) => self@.due_date == Some(*at),
                None => self@.due_date is None,
            },
    {
        self.due_date.as_ref()
    }

    /// The task's priority.
    pub fn get_priority(&self) -> (priority: &Priority)
        ensures
            *priority == self@.priority,
    {
        &self.priority
    }

    /// The task's status.
    pub fn get_status(&self) -> (status: &Status)
        ensures
            *status == self@.status,
    {
        &self.status
    }

    /// The task's labels, in order.
    pub fn get_labels(&self) -> (labels: &Vec<String>)
        ensures
            texts(labels@) == self@.labels,
    {
        &self.labels
    }

    /// The time at which the task was completed, where it was.
    pub fn get_completed_on(&self) -> (completed_on: Option<&Timestamp>)
        ensures
            match completed_on {
                Some(at) => self@.completed_on == Some(*at),
                None => self@.completed_on is None,
            },
    {
        self.completed_on.as_ref()
    }

    /// The name of the author who created the task.
    pub fn get_created_by(&self) -> (created_by: &str)
        ensures
            created_by@ == self@.created_by,
    {
        self.created_by.as_str()
    }

    /// Replaces the description. Nothing else changes.
    pub fn update_description(&mut self, desc: &str)
        ensures
            final(self)@ == (TaskView { description: Some(desc@), ..old(self)@ }),
    {
        self.description = Some(desc.to_owned());
    }

    /// Replaces the priority by the one that the code stands for. Nothing
    /// else changes.
    pub fn change_priority(&mut self, priority: u32)
        ensures
            final(self)@ == (TaskView { priority: Priority::of_code(priority), ..old(self)@ }),
    {
        self.priority = Priority::set(priority);
    }

    /// Replaces the status. Nothing else changes: a task that is set to
    /// complete gets no time of completion by that.
    pub fn update_status(&mut self, status: Status)
        ensures
            final(self)@ == (TaskView { status, ..old(self)@ }),
    {
        self.status = status;
    }

    /// Replaces the labels. Nothing else changes.
    pub fn update_labels(&mut self, labels: Vec<&str>)
        ensures
            final(self)@ == (TaskView { labels: str_texts(labels@), ..old(self)@ }),
    {
        self.labels = owned_texts(&labels);
    }

    /// Sets the time of completion to the given time, whether or not the task
    /// had one. Nothing else changes, the status included.
    pub fn complete_at(&mut self, at: Timestamp)
        ensures
            final(self)@ == (TaskView { completed_on: Some(at), ..old(self)@ }),
    {
        self.completed_on = Some(at);
    }

    /// Sets the time of completion to the current time, whether or not the
    /// task had one: a second call replaces the time of the first. Nothing
    /// else changes, the status included.
    pub fn mark_completed(&mut self)
        ensures
            final(self)@.completed_on is Some,
            final(self)@ == (TaskView {
                completed_on: final(self)@.completed_on,
                ..old(self)@
            }),
    {
        self.complete_at(current_time());
    }

    /// The record of the task for a store.
    pub fn csv_record(&self) -> (fields: Vec<String>)
        ensures
            texts(fields@) == self@.record(),
    {
        let mut fields: Vec<String> = Vec::new();
        fields.push(id_text(&self.id));
        fields.push(self.name.clone());
        fields.push(
            match &self.description {
                Some(text) => text.clone(),
                None => String::new(),
            },
        );
        fields.push(time_text(&self.created_on));
        fields.push(optional_time_text(&self.due_date));
        fields.push(self.priority.as_str().to_owned());
        fields.push(self.status.as_str().to_owned());
        fields.push(serialize_labels(&self.labels));
        fields.push(optional_time_text(&self.completed_on));
        fields.push(self.created_by.clone());
        fields
    }
}

} // verus!
