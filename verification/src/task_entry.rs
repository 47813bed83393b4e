//! What one entry of the task view shows.

use vstd::prelude::*;

verus! {

/// The state behind one entry of the task view: whether the entry is ticked
/// off, and its text.
#[derive(Debug)]
pub struct TaskData {
    pub completed: bool,
    pub content: String,
}

impl Default for TaskData {
    fn default() -> (data: Self)
        ensures
            !data.completed,
            data.content@ == Seq::<char>::empty(),
    {
        TaskData { completed: false, content: String::new() }
    }
}

} // verus!
