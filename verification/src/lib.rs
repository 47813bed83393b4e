//! Authentication and task persistence for a small to-do tracker.
//!
//! An author signs in with a name, an email address and a password. Authors and
//! their tasks are kept in append-only CSV stores. The library decides what a
//! store accepts and what is appended to it; reading and writing the files is
//! left to the caller, who hands over the bytes of a store and appends the
//! bytes that come back.

pub mod error;
pub mod stamp;
pub mod store;
pub mod task_entry;
pub mod todo_list;

pub use error::{Argon2Error, RusticError};
pub use stamp::Timestamp;
pub use task_entry::TaskData;
pub use todo_list::author::{Author, LoginState};
pub use todo_list::task::{Priority, Status, Task};
pub use todo_list::ToDoList;
