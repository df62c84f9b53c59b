//! Where the list is kept between runs, and how a stored list comes back.
//!
//! The list lives in the file [`FILE_NAME`], in the directory [`APP_NAME`]
//! under the user's configuration directory. Reading and writing the file is
//! the front end's work; this module says what the list is once the file was
//! read, or found missing.

use crate::task::{Task, TaskView, TodoList};
use vstd::prelude::*;

verus! {

/// The directory of this program under the user's configuration directory.
pub const APP_NAME: &'static str = "RustyTasks";

/// The file that holds the list, inside the directory [`APP_NAME`].
pub const FILE_NAME: &'static str = "todo.json";

/// The list that a store gives back: the stored tasks in their order, and
/// the empty list where nothing was stored yet.
pub open spec fn restored(stored: Option<Seq<TaskView>>) -> Seq<TaskView> {
    match stored {
        Some(tasks) => tasks,
        None => Seq::empty(),
    }
}

/// What `stored` stands for.
pub open spec fn stored_view(stored: Option<Vec<Task>>) -> Option<Seq<TaskView>> {
    match stored {
        Some(tasks) => Some(tasks.deep_view()),
        None => None,
    }
}

/// A store that is missing gives the same list as a store that holds no task.
pub proof fn lemma_missing_store_is_empty()
    ensures
        restored(None) == restored(Some(Seq::empty())),
{
}

/// The tasks of a list, stored and restored, are that list again: same
/// tasks, same order, same numbers, descriptions and completion.
pub proof fn lemma_restore_round_trip(tasks: Seq<TaskView>)
    ensures
        restored(Some(tasks)) == tasks,
{
}

impl TodoList {
    /// The list at start-up: the tasks that the store held, in their order,
    /// or the empty list where no store was found.
    pub fn load(stored: Option<Vec<Task>>) -> (list: TodoList)
        ensures
            list@ == restored(stored_view(stored)),
    {
        match stored {
            Some(tasks) => TodoList { tasks },
            None => TodoList::new(),
        }
    }
}

} // verus!
