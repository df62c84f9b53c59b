//! The menu dialogue as a state machine: each line of input moves the
//! dialogue on and says what to show, whether to store the list, and whether
//! to stop.

use crate::output::{line, plain, push_line, styled, Color, Span, SpanView};
use crate::task::{
    added, added_notice, carries_on, first_with_id, lemma_numbering_kept,
    lemma_operations_carry_on, listing, mark_notice, marked, numbered, TaskView, TodoList,
};
use crate::text::{parse_id, parsed_id, trim, trimmed};
use vstd::prelude::*;

verus! {

/// What the next line of input answers.
#[derive(Clone, Copy, Debug, PartialEq, Eq, Structural)]
pub enum Mode {
    /// The menu: the line names one of its options.
    Menu,
    /// The line describes a task to add.
    Description,
    /// The line names the task to mark as completed.
    TaskId,
}

/// A dialogue in progress: the list and what the next line answers.
#[derive(Clone, Debug, PartialEq, Eq)]
pub struct Repl {
    pub list: TodoList,
    pub mode: Mode,
}

/// What a [`Repl`] stands for.
pub ghost struct ReplView {
    pub tasks: Seq<TaskView>,
    pub mode: Mode,
}

impl View for Repl {
    type V = ReplView;

    open spec fn view(&self) -> ReplView {
        ReplView { tasks: self.list@, mode: self.mode }
    }
}

/// What the front end does after a line of input: show `output`, then store
/// the list if `save` is set, then stop if `exit` is set.
#[derive(Clone, Debug, PartialEq, Eq)]
pub struct Reaction {
    pub output: Vec<Span>,
    pub save: bool,
    pub exit: bool,
}

/// What a [`Reaction`] stands for.
pub ghost struct ReactionView {
    pub output: Seq<SpanView>,
    pub save: bool,
    pub exit: bool,
}

impl View for Reaction {
    type V = ReactionView;

    open spec fn view(&self) -> ReactionView {
        ReactionView { output: self.output.deep_view(), save: self.save, exit: self.exit }
    }
}

/// The reaction that shows `output` and neither stores nor stops.
pub open spec fn shows(output: Seq<SpanView>) -> ReactionView {
    ReactionView { output, save: false, exit: false }
}

/// The menu with its four numbered options, and the prompt after it.
pub open spec fn menu() -> Seq<SpanView> {
    seq![
        plain("\n"@),
        styled("=== To-Do List ==="@, Color::Blue, true),
        plain("\n"@),
        plain("1. "@),
        styled("Add Task"@, Color::Green, true),
        plain("\n"@),
        plain("2. "@),
        styled("View Tasks"@, Color::Yellow, true),
        plain("\n"@),
        plain("3. "@),
        styled("Mark Task Completed"@, Color::Cyan, true),
        plain("\n"@),
        plain("4. "@),
        styled("Exit"@, Color::Red, true),
        plain("\n"@),
        styled("Choose an option: "@, Color::White, true),
    ]
}

/// What is shown before a line is read in `mode`.
pub open spec fn prompt(mode: Mode) -> Seq<SpanView> {
    match mode {
        Mode::Menu => menu(),
        Mode::Description => seq![styled("Enter task description: "@, Color::White, true)],
        Mode::TaskId => seq![
            styled("Enter task ID to mark as completed: "@, Color::White, true),
        ],
    }
}

/// One step of the dialogue: the state after the line `input` and the
/// reaction to it. The line counts without the white space around it.
///
/// At the menu, `1` and `3` ask for a follow-up line, `2` shows the list,
/// `4` takes leave, and anything else is refused. A description is added as
/// a task. A task number marks that task; text that writes no number is
/// refused. The list is to be stored after a task was added and after a
/// task with the given number was marked, completed before or not, and at
/// no other time: a number that no task carries changes and stores nothing.
pub open spec fn step(state: ReplView, input: Seq<char>) -> (ReplView, ReactionView) {
    let text = trimmed(input);
    match state.mode {
        Mode::Menu => {
            if text == "1"@ {
                (ReplView { mode: Mode::Description, ..state }, shows(Seq::empty()))
            } else if text == "2"@ {
                (state, shows(listing(state.tasks)))
            } else if text == "3"@ {
                (ReplView { mode: Mode::TaskId, ..state }, shows(Seq::empty()))
            } else if text == "4"@ {
                (
                    state,
                    ReactionView {
                        output: line("Exiting... Goodbye!"@, Color::Green, true),
                        save: false,
                        exit: true,
                    },
                )
            } else {
                (state, shows(line("Invalid option! Try again."@, Color::Red, true)))
            }
        },
        Mode::Description => (
            ReplView { tasks: added(state.tasks, text), mode: Mode::Menu },
            ReactionView { output: added_notice(), save: true, exit: false },
        ),
        Mode::TaskId => match parsed_id(text) {
            Some(id) => (
                ReplView { tasks: marked(state.tasks, id as nat), mode: Mode::Menu },
                ReactionView {
                    output: mark_notice(state.tasks, id as nat),
                    save: first_with_id(state.tasks, id as nat) is Some,
                    exit: false,
                },
            ),
            None => (
                ReplView { mode: Mode::Menu, ..state },
                shows(line("Invalid ID!"@, Color::Red, true)),
            ),
        },
    }
}

/// The state of the dialogue after the lines `inputs`, first line first.
pub open spec fn run(state: ReplView, inputs: Seq<Seq<char>>) -> ReplView
    decreases inputs.len(),
{
    if inputs.len() == 0 {
        state
    } else {
        step(run(state, inputs.drop_last()), inputs.last()).0
    }
}

/// No line of input removes, moves or renumbers a task, or opens a
/// completed task again.
pub proof fn lemma_step_carries_on(state: ReplView, input: Seq<char>)
    ensures
        carries_on(state.tasks, step(state, input).0.tasks),
{
    let text = trimmed(input);
    lemma_operations_carry_on(state.tasks, text, 0);
    if let Some(id) = parsed_id(text) {
        lemma_operations_carry_on(state.tasks, text, id as nat);
    }
}

/// However long the dialogue runs, every task stays at its place with its
/// number and description, and a task once completed stays completed.
pub proof fn lemma_run_carries_on(state: ReplView, inputs: Seq<Seq<char>>)
    ensures
        carries_on(state.tasks, run(state, inputs).tasks),
    decreases inputs.len(),
{
    if inputs.len() > 0 {
        lemma_run_carries_on(state, inputs.drop_last());
        lemma_step_carries_on(run(state, inputs.drop_last()), inputs.last());
    }
}

/// A dialogue that starts from a list numbered from one only reaches lists
/// numbered from one: the numbers are `1` to the length, in list order.
pub proof fn lemma_run_keeps_numbering(state: ReplView, inputs: Seq<Seq<char>>)
    requires
        numbered(state.tasks),
    ensures
        numbered(run(state, inputs).tasks),
    decreases inputs.len(),
{
    if inputs.len() > 0 {
        lemma_run_keeps_numbering(state, inputs.drop_last());
        let before = run(state, inputs.drop_last());
        let text = trimmed(inputs.last());
        lemma_numbering_kept(before.tasks, text, 0);
        if let Some(id) = parsed_id(text) {
            lemma_numbering_kept(before.tasks, text, id as nat);
        }
    }
}

/// A step that does not ask for the list to be stored has not changed it:
/// the stored list never falls behind the list in memory.
pub proof fn lemma_unsaved_step_changes_nothing(state: ReplView, input: Seq<char>)
    requires
        !step(state, input).1.save,
    ensures
        step(state, input).0.tasks == state.tasks,
{
}

/// Whether `text` is the single character `c`.
fn is_char(text: &str, c: char) -> (same: bool)
    ensures
        same == (text@ == seq![c]),
{
    let same = text.unicode_len() == 1 && text.get_char(0) == c;
    assert(same ==> text@ =~= seq![c]);
    same
}

/// A reaction that shows one styled line and neither stores nor stops.
fn show_line(text: &str, color: Color, bold: bool) -> (reaction: Reaction)
    ensures
        reaction@ == shows(line(text@, color, bold)),
{
    let mut output: Vec<Span> = Vec::new();
    push_line(&mut output, text, color, bold);
    Reaction { output, save: false, exit: false }
}

impl Repl {
    /// A dialogue over `list` that starts at the menu.
    pub fn new(list: TodoList) -> (repl: Repl)
        ensures
            repl@ == (ReplView { tasks: list@, mode: Mode::Menu }),
    {
        Repl { list, mode: Mode::Menu }
    }

    /// What to show before the next line is read: see [`prompt`].
    pub fn prompt(&self) -> (shown: Vec<Span>)
        ensures
            shown.deep_view() == prompt(self@.mode),
    {
        let mut shown: Vec<Span> = Vec::new();
        match self.mode {
            Mode::Menu => {
                shown.push(Span::new("\n", Color::Plain, false));
                shown.push(Span::new("=== To-Do List ===", Color::Blue, true));
                shown.push(Span::new("\n", Color::Plain, false));
                shown.push(Span::new("1. ", Color::Plain, false));
                shown.push(Span::new("Add Task", Color::Green, true));
                shown.push(Span::new("\n", Color::Plain, false));
                shown.push(Span::new("2. ", Color::Plain, false));
                shown.push(Span::new("View Tasks", Color::Yellow, true));
                shown.push(Span::new("\n", Color::Plain, false));
                shown.push(Span::new("3. ", Color::Plain, false));
                shown.push(Span::new("Mark Task Completed", Color::Cyan, true));
                shown.push(Span::new("\n", Color::Plain, false));
                shown.push(Span::new("4. ", Color::Plain, false));
                shown.push(Span::new("Exit", Color::Red, true));
                shown.push(Span::new("\n", Color::Plain, false));
                shown.push(Span::new("Choose an option: ", Color::White, true));
            },
            Mode::Description => {
                shown.push(Span::new("Enter task description: ", Color::White, true));
            },
            Mode::TaskId => {
                shown.push(Span::new("Enter task ID to mark as completed: ", Color::White, true));
            },
        }
        shown
    }

    /// Takes one line of input: see [`step`].
    pub fn handle_line(&mut self, input: &str) -> (reaction: Reaction)
        requires
            old(self)@.mode == Mode::Description ==> old(self)@.tasks.len() < usize::MAX,
        ensures
            (final(self)@, reaction@) == step(old(self)@, input@),
    {
        let text = trim(input);
        proof {
            reveal_strlit("1");
            reveal_strlit("2");
            reveal_strlit("3");
            reveal_strlit("4");
            assert("1"@ =~= seq!['1']);
            assert("2"@ =~= seq!['2']);
            assert("3"@ =~= seq!['3']);
            assert("4"@ =~= seq!['4']);
        }
        match self.mode {
            Mode::Menu => {
                if is_char(text, '1') {
                    self.mode = Mode::Description;
                    let output: Vec<Span> = Vec::new();
                    assert(output.deep_view() =~= Seq::<SpanView>::empty());
                    Reaction { output, save: false, exit: false }
                } else if is_char(text, '2') {
                    Reaction { output: self.list.view_tasks(), save: false, exit: false }
                } else if is_char(text, '3') {
                    self.mode = Mode::TaskId;
                    let output: Vec<Span> = Vec::new();
                    assert(output.deep_view() =~= Seq::<SpanView>::empty());
                    Reaction { output, save: false, exit: false }
                } else if is_char(text, '4') {
                    let shown = show_line("Exiting... Goodbye!", Color::Green, true);
                    Reaction { output: shown.output, save: false, exit: true }
                } else {
                    show_line("Invalid option! Try again.", Color::Red, true)
                }
            },
            Mode::Description => {
                let output = self.list.add_task(String::from_str(text));
                self.mode = Mode::Menu;
                Reaction { output, save: true, exit: false }
            },
            Mode::TaskId => {
                self.mode = Mode::Menu;
                match parse_id(text) {
                    Some(id) => {
                        let save = self.list.position_of(id).is_some();
                        let output = self.list.mark_completed(id);
                        Reaction { output, save, exit: false }
                    },
                    None => show_line("Invalid ID!", Color::Red, true),
                }
            },
        }
    }
}

} // verus!
