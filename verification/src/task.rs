//! The to-do list: its tasks, the operations on them, and what each shows.

use crate::output::{
    lemma_text_of_concat, lemma_text_of_line, line, plain, push_line, styled, text_of, Color, Span,
    SpanView,
};
use crate::text::{decimal, decimal_string};
use vstd::prelude::*;

verus! {

/// One to-do item.
#[derive(Clone, Debug, PartialEq, Eq)]
pub struct Task {
    pub id: usize,
    pub description: String,
    pub completed: bool,
}

/// What a [`Task`] stands for.
pub ghost struct TaskView {
    pub id: nat,
    pub description: Seq<char>,
    pub completed: bool,
}

impl View for Task {
    type V = TaskView;

    open spec fn view(&self) -> TaskView {
        TaskView {
            id: self.id as nat,
            description: self.description@,
            completed: self.completed,
        }
    }
}

impl DeepView for Task {
    type V = TaskView;

    open spec fn deep_view(&self) -> TaskView {
        self@
    }
}

/// The tasks of one user, oldest first. Its view is the sequence of the
/// tasks' views.
#[derive(Clone, Debug, PartialEq, Eq)]
pub struct TodoList {
    pub tasks: Vec<Task>,
}

impl View for TodoList {
    type V = Seq<TaskView>;

    open spec fn view(&self) -> Seq<TaskView> {
        self.tasks.deep_view()
    }
}

/// The list after a task with the given description is added: the new task
/// comes last, is open, and is numbered one past the number of tasks before it.
pub open spec fn added(tasks: Seq<TaskView>, description: Seq<char>) -> Seq<TaskView> {
    tasks.push(TaskView { id: tasks.len() + 1, description, completed: false })
}

/// `i` is the position of the earliest task that carries `id`.
pub open spec fn is_first_with_id(tasks: Seq<TaskView>, id: nat, i: int) -> bool {
    &&& 0 <= i < tasks.len()
    &&& tasks[i].id == id
    &&& forall|j: int| 0 <= j < i ==> tasks[j].id != id
}

/// The position of the earliest task that carries `id`, if any task does.
pub open spec fn first_with_id(tasks: Seq<TaskView>, id: nat) -> Option<int> {
    if exists|i: int| is_first_with_id(tasks, id, i) {
        Some(choose|i: int| is_first_with_id(tasks, id, i))
    } else {
        None
    }
}

/// The task `task`, completed.
pub open spec fn done(task: TaskView) -> TaskView {
    TaskView { completed: true, ..task }
}

/// The list after the task `id` is marked: the earliest task that carries
/// `id` is completed, and a list without such a task is unchanged.
pub open spec fn marked(tasks: Seq<TaskView>, id: nat) -> Seq<TaskView> {
    match first_with_id(tasks, id) {
        Some(i) => tasks.update(i, done(tasks[i])),
        None => tasks,
    }
}

/// The notice shown after a task is added.
pub open spec fn added_notice() -> Seq<SpanView> {
    line("Task added successfully!"@, Color::Green, false)
}

/// The notice shown after marking `id`: success where a task carries it,
/// else a line that names the missing `id`.
pub open spec fn mark_notice(tasks: Seq<TaskView>, id: nat) -> Seq<SpanView> {
    if first_with_id(tasks, id) is Some {
        line("Task marked as completed!"@, Color::Green, false)
    } else {
        line("Task with ID "@ + decimal(id) + " not found!"@, Color::Red, true)
    }
}

/// The status marker of a task: `[x]` once completed, `[ ]` before.
pub open spec fn status_mark(completed: bool) -> SpanView {
    if completed {
        styled("[x]"@, Color::Green, false)
    } else {
        styled("[ ]"@, Color::Red, false)
    }
}

/// The row of one task: marker, number, description, line break.
pub open spec fn task_row(task: TaskView) -> Seq<SpanView> {
    seq![
        status_mark(task.completed),
        plain(" "@),
        styled(decimal(task.id), Color::Cyan, true),
        plain(": "@),
        plain(task.description),
        plain("\n"@),
    ]
}

/// The rows of `tasks`, one after another in list order.
pub open spec fn task_rows(tasks: Seq<TaskView>) -> Seq<SpanView>
    decreases tasks.len(),
{
    if tasks.len() == 0 {
        Seq::empty()
    } else {
        task_rows(tasks.drop_last()) + task_row(tasks.last())
    }
}

/// What viewing `tasks` shows: a notice for an empty list, else a heading
/// and the rows of the tasks.
pub open spec fn listing(tasks: Seq<TaskView>) -> Seq<SpanView> {
    if tasks.len() == 0 {
        line("No tasks available!"@, Color::Yellow, false)
    } else {
        line("Your To-Do List:"@, Color::Blue, true) + task_rows(tasks)
    }
}

/// A position that meets [`is_first_with_id`] is the one that
/// [`first_with_id`] gives.
pub proof fn lemma_first_with_id_found(tasks: Seq<TaskView>, id: nat, i: int)
    requires
        is_first_with_id(tasks, id, i),
    ensures
        first_with_id(tasks, id) == Some(i),
{
}

/// Where no task carries `id`, [`first_with_id`] gives nothing.
pub proof fn lemma_first_with_id_absent(tasks: Seq<TaskView>, id: nat)
    requires
        forall|j: int| 0 <= j < tasks.len() ==> tasks[j].id != id,
    ensures
        first_with_id(tasks, id) is None,
{
}

/// The list after tasks with the given descriptions are added one by one,
/// first description first.
pub open spec fn added_all(tasks: Seq<TaskView>, descriptions: Seq<Seq<char>>) -> Seq<TaskView>
    decreases descriptions.len(),
{
    if descriptions.len() == 0 {
        tasks
    } else {
        added(added_all(tasks, descriptions.drop_last()), descriptions.last())
    }
}

/// Each task carries its place in the list as its number, counted from one.
pub open spec fn numbered(tasks: Seq<TaskView>) -> bool {
    forall|i: int| 0 <= i < tasks.len() ==> tasks[i].id == i + 1
}

/// `after` keeps every task of `before` at its place, with its number and
/// its description, and no completed task of `before` is open in `after`.
pub open spec fn carries_on(before: Seq<TaskView>, after: Seq<TaskView>) -> bool {
    &&& before.len() <= after.len()
    &&& forall|i: int|
        0 <= i < before.len() ==> {
            &&& after[i].id == before[i].id
            &&& after[i].description == before[i].description
            &&& before[i].completed ==> after[i].completed
        }
}

/// Adding `n` tasks to the empty list gives `n` tasks, numbered `1` to `n`
/// in the order they were added, each open and with the description it was
/// added with.
pub proof fn lemma_adds_number_from_one(descriptions: Seq<Seq<char>>)
    ensures
        added_all(Seq::empty(), descriptions).len() == descriptions.len(),
        forall|i: int|
            0 <= i < descriptions.len() ==> added_all(Seq::empty(), descriptions)[i] == (TaskView {
                id: (i + 1) as nat,
                description: descriptions[i],
                completed: false,
            }),
    decreases descriptions.len(),
{
    if descriptions.len() > 0 {
        lemma_adds_number_from_one(descriptions.drop_last());
    }
}

/// Adding and marking keep the numbering: a list numbered from one stays so.
pub proof fn lemma_numbering_kept(tasks: Seq<TaskView>, description: Seq<char>, id: nat)
    requires
        numbered(tasks),
    ensures
        numbered(added(tasks, description)),
        numbered(marked(tasks, id)),
{
}

/// In a list numbered from one, marking `id` completes the task at place
/// `id - 1`, and changes nothing where `id` is zero or past the last number.
pub proof fn lemma_marked_by_place(tasks: Seq<TaskView>, id: nat)
    requires
        numbered(tasks),
    ensures
        1 <= id <= tasks.len() ==> marked(tasks, id) == tasks.update(id - 1, done(tasks[id - 1])),
        !(1 <= id <= tasks.len()) ==> marked(tasks, id) == tasks,
{
    if 1 <= id <= tasks.len() {
        lemma_first_with_id_found(tasks, id, id - 1);
    } else {
        lemma_first_with_id_absent(tasks, id);
    }
}

/// Neither adding nor marking removes, moves or renumbers a task, and
/// neither opens a completed task again.
pub proof fn lemma_operations_carry_on(tasks: Seq<TaskView>, description: Seq<char>, id: nat)
    ensures
        carries_on(tasks, added(tasks, description)),
        carries_on(tasks, marked(tasks, id)),
        marked(tasks, id).len() == tasks.len(),
{
}

/// Marking a task a second time changes nothing.
pub proof fn lemma_marked_twice(tasks: Seq<TaskView>, id: nat)
    ensures
        marked(marked(tasks, id), id) == marked(tasks, id),
{
    match first_with_id(tasks, id) {
        Some(i) => lemma_first_with_id_found(marked(tasks, id), id, i),
        None => {},
    }
}

/// A listing shows the tasks in list order: after the two spans of the
/// heading, the six spans of row `i` are the row of the task at place `i`.
pub proof fn lemma_listing_rows(tasks: Seq<TaskView>, i: int)
    requires
        0 <= i < tasks.len(),
    ensures
        listing(tasks).len() == 2 + 6 * tasks.len(),
        listing(tasks).subrange(2 + 6 * i, 8 + 6 * i) == task_row(tasks[i]),
{
    lemma_task_rows(tasks, i);
}

/// The row of a task as text: the marker, a space, the number, a colon and
/// a space, the description, a line break.
pub open spec fn row_text(task: TaskView) -> Seq<char> {
    status_mark(task.completed).text + " "@ + decimal(task.id) + ": "@ + task.description + "\n"@
}

/// The rows of `tasks` as text, one line after another in list order.
pub open spec fn rows_text(tasks: Seq<TaskView>) -> Seq<char>
    decreases tasks.len(),
{
    if tasks.len() == 0 {
        Seq::empty()
    } else {
        rows_text(tasks.drop_last()) + row_text(tasks.last())
    }
}

/// With the styles dropped, a listing of a list that holds a task reads:
/// the heading, then one line a task in list order, each with `[x]` for a
/// completed task and `[ ]` for an open one, then the number and the
/// description.
pub proof fn lemma_listing_text(tasks: Seq<TaskView>)
    requires
        tasks.len() > 0,
    ensures
        text_of(listing(tasks)) == "Your To-Do List:\n"@ + rows_text(tasks),
{
    let heading = line("Your To-Do List:"@, Color::Blue, true);
    lemma_text_of_line("Your To-Do List:"@, Color::Blue, true);
    lemma_text_of_concat(heading, task_rows(tasks));
    lemma_rows_text(tasks);
    reveal_strlit("Your To-Do List:\n");
    reveal_strlit("Your To-Do List:");
    reveal_strlit("\n");
}

/// With the styles dropped, the rows of a list are its lines of text.
proof fn lemma_rows_text(tasks: Seq<TaskView>)
    ensures
        text_of(task_rows(tasks)) == rows_text(tasks),
    decreases tasks.len(),
{
    if tasks.len() > 0 {
        lemma_rows_text(tasks.drop_last());
        lemma_text_of_concat(task_rows(tasks.drop_last()), task_row(tasks.last()));
        lemma_row_text(tasks.last());
    }
}

/// With the styles dropped, the row of a task is its line of text.
proof fn lemma_row_text(task: TaskView)
    ensures
        text_of(task_row(task)) == row_text(task),
{
    let row = task_row(task);
    let five = row.drop_last();
    let four = five.drop_last();
    let three = four.drop_last();
    let two = three.drop_last();
    let one = two.drop_last();
    assert(text_of(one.drop_last()) =~= Seq::<char>::empty());
    assert(text_of(one) =~= status_mark(task.completed).text);
    assert(text_of(two) =~= text_of(one) + " "@);
    assert(text_of(three) =~= text_of(two) + decimal(task.id));
    assert(text_of(four) =~= text_of(three) + ": "@);
    assert(text_of(five) =~= text_of(four) + task.description);
    assert(text_of(row) =~= text_of(five) + "\n"@);
}

/// The rows of a list are six spans a task, and the row of the task at
/// place `i` starts at span `6 * i`.
proof fn lemma_task_rows(tasks: Seq<TaskView>, i: int)
    requires
        0 <= i < tasks.len(),
    ensures
        task_rows(tasks).len() == 6 * tasks.len(),
        task_rows(tasks).subrange(6 * i, 6 + 6 * i) == task_row(tasks[i]),
    decreases tasks.len(),
{
    lemma_task_rows_len(tasks);
    lemma_task_rows_len(tasks.drop_last());
    if i < tasks.len() - 1 {
        lemma_task_rows(tasks.drop_last(), i);
    }
}

/// The rows of a list are six spans a task.
proof fn lemma_task_rows_len(tasks: Seq<TaskView>)
    ensures
        task_rows(tasks).len() == 6 * tasks.len(),
    decreases tasks.len(),
{
    if tasks.len() > 0 {
        lemma_task_rows_len(tasks.drop_last());
    }
}

impl Task {
    /// Appends the row of `self` to `out`.
    fn push_row(&self, out: &mut Vec<Span>)
        ensures
            final(out).deep_view() == old(out).deep_view() + task_row(self@),
    {
        if self.completed {
            out.push(Span::new("[x]", Color::Green, false));
        } else {
            out.push(Span::new("[ ]", Color::Red, false));
        }
        out.push(Span::new(" ", Color::Plain, false));
        out.push(Span { text: decimal_string(self.id), color: Color::Cyan, bold: true });
        out.push(Span::new(": ", Color::Plain, false));
        out.push(Span { text: self.description.clone(), color: Color::Plain, bold: false });
        out.push(Span::new("\n", Color::Plain, false));
    }
}

impl TodoList {
    /// The empty list.
    pub fn new() -> (list: TodoList)
        ensures
            list@ == Seq::<TaskView>::empty(),
    {
        let list = TodoList { tasks: Vec::new() };
        list
    }

    /// What viewing the list shows: see [`listing`].
    pub fn view_tasks(&self) -> (shown: Vec<Span>)
        ensures
            shown.deep_view() == listing(self@),
    {
        let mut shown: Vec<Span> = Vec::new();
        if self.tasks.is_empty() {
            push_line(&mut shown, "No tasks available!", Color::Yellow, false);
            return shown;
        }
        push_line(&mut shown, "Your To-Do List:", Color::Blue, true);
        let ghost heading = shown.deep_view();
        let mut i: usize = 0;
        while i < self.tasks.len()
            invariant
                i <= self.tasks.len(),
                heading == line("Your To-Do List:"@, Color::Blue, true),
                shown.deep_view() == heading + task_rows(self@.take(i as int)),
            decreases self.tasks.len() - i,
        {
            self.tasks[i].push_row(&mut shown);
            proof {
                let rows = self@.take(i as int + 1);
                assert(rows.drop_last() =~= self@.take(i as int));
            }
            i += 1;
        }
        assert(self@.take(i as int) =~= self@);
        shown
    }

    /// Adds a task with the given description and returns the notice to show.
    /// The task is numbered one past the number of tasks before it.
    pub fn add_task(&mut self, description: String) -> (notice: Vec<Span>)
        requires
            old(self)@.len() < usize::MAX,
        ensures
            final(self)@ == added(old(self)@, description@),
            notice.deep_view() == added_notice(),
    {
        let id = self.tasks.len() + 1;
        self.tasks.push(Task { id, description, completed: false });
        let mut notice: Vec<Span> = Vec::new();
        push_line(&mut notice, "Task added successfully!", Color::Green, false);
        notice
    }

    /// The place of the earliest task that carries `id`, if any task does.
    pub fn position_of(&self, id: usize) -> (place: Option<usize>)
        ensures
            match place {
                Some(i) => first_with_id(self@, id as nat) == Some(i as int),
                None => first_with_id(self@, id as nat) is None,
            },
    {
        let mut i: usize = 0;
        while i < self.tasks.len()
            invariant
                i <= self.tasks.len(),
                forall|j: int| 0 <= j < i ==> self@[j].id != id as nat,
            decreases self.tasks.len() - i,
        {
            if self.tasks[i].id == id {
                proof {
                    lemma_first_with_id_found(self@, id as nat, i as int);
                }
                return Some(i);
            }
            i += 1;
        }
        proof {
            lemma_first_with_id_absent(self@, id as nat);
        }
        None
    }

    /// Completes the earliest task that carries `id` and returns the notice to
    /// show. A list without such a task is left as it is, and the notice names
    /// the missing `id`. Marking a completed task again changes nothing.
    pub fn mark_completed(&mut self, id: usize) -> (notice: Vec<Span>)
        ensures
            final(self)@ == marked(old(self)@, id as nat),
            notice.deep_view() == mark_notice(old(self)@, id as nat),
    {
        let mut notice: Vec<Span> = Vec::new();
        match self.position_of(id) {
            Some(i) => {
                self.tasks[i].completed = true;
                push_line(&mut notice, "Task marked as completed!", Color::Green, false);
            },
            None => {
                let mut text = String::from_str("Task with ID ");
                text.append(decimal_string(id).as_str());
                text.append(" not found!");
                notice.push(Span { text, color: Color::Red, bold: true });
                notice.push(Span::new("\n", Color::Plain, false));
            },
        }
        notice
    }
}

impl Default for TodoList {
    fn default() -> (list: TodoList)
        ensures
            list@ == Seq::<TaskView>::empty(),
    {
        TodoList::new()
    }
}

} // verus!
