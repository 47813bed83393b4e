//! The to-do list of one author.

pub mod author;
pub mod task;

use vstd::prelude::*;
use crate::error::RusticError;
use crate::store::{
    appended_bytes, bytes_after, csv_record_bytes, encode_appended, lemma_first_record_leads,
    records_bytes, records_view, texts,
};
use crate::todo_list::author::{Author, AuthorView};
use crate::todo_list::task::{task_header, task_header_record, Task, TaskView};

verus! {

/// The tasks of one author, in the order in which they were added.
#[derive(Debug)]
pub struct ToDoList {
    author: Author,
    tasks: Vec<Task>,
}

/// What a to-do list holds.
pub struct ToDoListView {
    pub author: AuthorView,
    pub tasks: Seq<TaskView>,
}

/// The tasks, each by its view.
pub open spec fn task_views(tasks: Seq<Task>) -> Seq<TaskView> {
    tasks.map_values(|task: Task| task@)
}

/// The records of the tasks, one for each task and in the same order.
pub open spec fn task_records(tasks: Seq<TaskView>) -> Seq<Seq<Seq<char>>> {
    tasks.map_values(|task: TaskView| task.record())
}

impl View for ToDoList {
    type V = ToDoListView;

    closed spec fn view(&self) -> ToDoListView {
        ToDoListView { author: self.author@, tasks: task_views(self.tasks@) }
    }
}

impl ToDoList {
    /// Creates the list of the author, without tasks.
    pub fn build(author: Author) -> (r: Result<Self, RusticError>)
        ensures
            r matches Ok(list) && list@.author == author@ && list@.tasks == Seq::<
                TaskView,
            >::empty(),
    {
        let tasks: Vec<Task> = Vec::new();
        let list = ToDoList { author, tasks };
        Ok(list)
    }

    /// The author of the list.
    pub fn get_author(&self) -> (author: &Author)
        ensures
            author@ == self@.author,
    {
        &self.author
    }

    /// The tasks of the list, in the order in which they were added.
    pub fn get_tasks(&self) -> (tasks: &Vec<Task>)
        ensures
            task_views(tasks@) == self@.tasks,
    {
        &self.tasks
    }

    /// Adds the task at the end of the list. A task may be added twice.
    pub fn add(&mut self, task: Task)
        ensures
            final(self)@.author == old(self)@.author,
            final(self)@.tasks == old(self)@.tasks.push(task@),
    {
        self.tasks.push(task);
    }

    /// Returns the bytes to append to a task store of `store_len` bytes: one
    /// record for each task of the list, in order, after the header where the
    /// store is empty and the list has a task. The list itself does not
    /// change, so writing it twice appends every task twice.
    pub fn write_to_csv(&self, store_len: u64) -> (r: Result<Vec<u8>, RusticError>)
        ensures
            match appended_bytes(store_len == 0, task_header(), task_records(self@.tasks)) {
                Some(bytes) => r matches Ok(out) && out@ == bytes,
                None => r matches Err(RusticError::CSVError(_)),
            },
    {
        let is_empty = store_len == 0;
        let mut records: Vec<Vec<String>> = Vec::new();
        let mut i: usize = 0;
        while i < self.tasks.len()
            invariant
                i <= self.tasks@.len(),
                records@.len() == i,
                forall|j: int|
                    0 <= j < i ==> texts((#[trigger] records@[j])@) == self.tasks@[j]@.record(),
            decreases self.tasks@.len() - i,
        {
            records.push(self.tasks[i].csv_record());
            i += 1;
        }
        assert(records_view(records@) == task_records(self@.tasks));
        encode_appended(is_empty, task_header_record(), records)
    }
}

/// Writing a list twice repeats its rows. What `ToDoList::write_to_csv` owes
/// for an empty store is the header followed by the rows of the tasks, and
/// what it owes for the store after that, which holds something, is the same
/// rows again, without a header.
pub proof fn lemma_second_write_repeats_rows(tasks: Seq<TaskView>)
    requires
        tasks.len() > 0,
    ensures
        appended_bytes(false, task_header(), task_records(tasks)) == records_bytes(
            task_records(tasks),
        ),
        appended_bytes(true, task_header(), task_records(tasks)) == bytes_after(
            csv_record_bytes(task_header()),
            appended_bytes(false, task_header(), task_records(tasks)),
        ),
{
    lemma_first_record_leads(task_header(), task_records(tasks));
}

} // verus!
