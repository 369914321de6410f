use crate::clock::{Moment, Timestamp};
use crate::error::Error;
use crate::events::{Event, Key};
use crate::menu::MenuItem;
use crate::order::{highest_id, lemma_sort_by_id_sorted};
use crate::selection::Selection;
use crate::store::{
    add_task_to_db_at, progress_task_at_index_at, remove_task_at_index, with_added,
    with_advanced, with_removed,
};
use crate::task::{Task, TaskView};
use crate::writing::document_text;
use vstd::prelude::*;

verus! {

/// Whether keys move through the screens or type the name of a new task.
#[derive(Clone, Copy, Debug, PartialEq, Eq, Structural)]
pub enum InputMode {
    Normal,
    Editing,
}

/// The state of the input box.
#[derive(Clone, Debug, PartialEq, Eq)]
pub struct App {
    /// Current value of the input box
    pub input: String,
    /// Current input mode
    pub input_mode: InputMode,
}

impl Default for App {
    fn default() -> (app: App)
        ensures
            app.input@ == Seq::<char>::empty(),
            app.input_mode == InputMode::Normal,
    {
        App { input: String::new(), input_mode: InputMode::Normal }
    }
}

/// What the control loop has to do for an event, beyond drawing again.
#[derive(Clone, Debug, PartialEq, Eq)]
pub enum Command {
    /// Nothing.
    Redraw,
    /// Leave raw mode and end the loop.
    Quit,
    /// Add a task of this name to the store.
    AddTask(String),
    /// Move the selected task one step forward.
    ProgressTask,
    /// Take the selected task out of the store.
    RemoveTask,
    /// Move the selection one task down.
    SelectNext,
    /// Move the selection one task up.
    SelectPrevious,
}

/// A command as mathematics sees it.
pub enum CommandView {
    Redraw,
    Quit,
    AddTask(Seq<char>),
    ProgressTask,
    RemoveTask,
    SelectNext,
    SelectPrevious,
}

impl CommandView {
    /// The tasks that the command has written to the store at the time
    /// `now`; `None` where it leaves the store alone. Progress and removal
    /// leave it alone where the selection picks no task.
    pub open spec fn stored(self, selection: Selection, tasks: Seq<TaskView>, now: Moment)
        -> Option<Seq<TaskView>> {
        match self {
            CommandView::AddTask(name) => Some(with_added(tasks, name, now)),
            CommandView::ProgressTask => match selection.addressed(tasks.len()) {
                Some(index) => Some(with_advanced(tasks, index, now)),
                None => None,
            },
            CommandView::RemoveTask => match selection.addressed(tasks.len()) {
                Some(index) => Some(with_removed(tasks, index)),
                None => None,
            },
            _ => None,
        }
    }

    /// The number of tasks after the command, of `len` before it.
    pub open spec fn len_after(self, selection: Selection, len: nat) -> nat {
        match self {
            CommandView::AddTask(_) => len + 1,
            CommandView::RemoveTask => match selection.addressed(len) {
                Some(_) => (len - 1) as nat,
                None => len,
            },
            _ => len,
        }
    }

    /// The selection after the command, in a list of `len` tasks before it.
    /// After an addition the selection is made fit for the longer list;
    /// after a removal it moves up, or stays on the first task.
    pub open spec fn selection_after(self, selection: Selection, len: nat) -> Selection {
        match self {
            CommandView::AddTask(_) => selection.revalidated(len + 1),
            CommandView::RemoveTask => selection.after_removal(len),
            CommandView::SelectNext => selection.moved_down(len),
            CommandView::SelectPrevious => selection.moved_up(len),
            _ => selection,
        }
    }
}

impl View for Command {
    type V = CommandView;

    open spec fn view(&self) -> CommandView {
        match self {
            Command::Redraw => CommandView::Redraw,
            Command::Quit => CommandView::Quit,
            Command::AddTask(name) => CommandView::AddTask(name@),
            Command::ProgressTask => CommandView::ProgressTask,
            Command::RemoveTask => CommandView::RemoveTask,
            Command::SelectNext => CommandView::SelectNext,
            Command::SelectPrevious => CommandView::SelectPrevious,
        }
    }
}

/// What the control loop keeps between two events.
#[derive(Clone, Debug, PartialEq, Eq)]
pub struct Session {
    pub app: App,
    pub active_menu_item: MenuItem,
    pub task_list_state: Selection,
}

/// A session as mathematics sees it.
pub struct SessionView {
    pub input: Seq<char>,
    pub input_mode: InputMode,
    pub active_menu_item: MenuItem,
    pub task_list_state: Selection,
}

impl SessionView {
    /// The session after a key in normal mode, and what is to be done.
    pub open spec fn after_normal_key(self, key: Key) -> (SessionView, CommandView) {
        match key {
            Key::Char(c) => if c == 'e' {
                (self, CommandView::Quit)
            } else if c == 'h' {
                (SessionView { active_menu_item: MenuItem::Home, ..self }, CommandView::Redraw)
            } else if c == 't' {
                (SessionView { active_menu_item: MenuItem::Tasks, ..self }, CommandView::Redraw)
            } else if c == 'a' {
                (SessionView { input_mode: InputMode::Editing, ..self }, CommandView::Redraw)
            } else if c == 'p' {
                (self, CommandView::ProgressTask)
            } else if c == 'd' {
                (self, CommandView::RemoveTask)
            } else {
                (self, CommandView::Redraw)
            },
            Key::Down => (self, CommandView::SelectNext),
            Key::Up => (self, CommandView::SelectPrevious),
            _ => (self, CommandView::Redraw),
        }
    }

    /// The session after a key while a name is typed, and what is to be
    /// done. Enter hands the name over and empties the box; escape leaves
    /// the box as it is and adds nothing.
    pub open spec fn after_editing_key(self, key: Key) -> (SessionView, CommandView) {
        match key {
            Key::Enter => (
                SessionView { input: Seq::empty(), input_mode: InputMode::Normal, ..self },
                CommandView::AddTask(self.input),
            ),
            Key::Char(c) => (SessionView { input: self.input.push(c), ..self }, CommandView::Redraw),
            Key::Backspace => (
                SessionView {
                    input: if self.input.len() > 0 {
                        self.input.drop_last()
                    } else {
                        self.input
                    },
                    ..self
                },
                CommandView::Redraw,
            ),
            Key::Esc => (SessionView { input_mode: InputMode::Normal, ..self }, CommandView::Redraw),
            _ => (self, CommandView::Redraw),
        }
    }

    /// The session after an event, and what is to be done. A tick changes
    /// nothing: it only has the screen drawn again.
    pub open spec fn after(self, event: Event<Key>) -> (SessionView, CommandView) {
        match event {
            Event::Input(key) => match self.input_mode {
                InputMode::Normal => self.after_normal_key(key),
                InputMode::Editing => self.after_editing_key(key),
            },
            Event::Tick => (self, CommandView::Redraw),
        }
    }
}

impl View for Session {
    type V = SessionView;

    open spec fn view(&self) -> SessionView {
        SessionView {
            input: self.app.input@,
            input_mode: self.app.input_mode,
            active_menu_item: self.active_menu_item,
            task_list_state: self.task_list_state,
        }
    }
}

/// `String::push` of std: the character is appended.
#[verifier::external_body]
fn push_char(text: &mut String, c: char)
    ensures
        final(text)@ == old(text)@.push(c),
{
    text.push(c)
}

/// `String::pop` of std: the last character is taken off and returned; an
/// empty text stays empty and gives none.
#[verifier::external_body]
fn pop_char(text: &mut String) -> (last: Option<char>)
    ensures
        old(text)@.len() > 0 ==> last == Some(old(text)@.last()) && final(text)@ == old(
            text,
        )@.drop_last(),
        old(text)@.len() == 0 ==> last is None && final(text)@ == old(text)@,
{
    text.pop()
}

impl Session {
    /// The session at the start: the home screen, normal mode, an empty
    /// input box and the selection that fits a list of `len` tasks.
    pub fn new(len: usize) -> (session: Session)
        ensures
            session@.input == Seq::<char>::empty(),
            session@.input_mode == InputMode::Normal,
            session@.active_menu_item == MenuItem::Home,
            session@.task_list_state == (Selection { index: None }).revalidated(len as nat),
            session@.task_list_state.valid_for(len as nat),
    {
        let mut task_list_state = Selection::new();
        task_list_state.revalidate(len);
        Session { app: App::default(), active_menu_item: MenuItem::Home, task_list_state }
    }

    /// Takes one event in, changes the session and says what is to be done.
    pub fn handle_event(&mut self, event: Event<Key>) -> (command: Command)
        ensures
            (final(self)@, command@) == old(self)@.after(event),
    {
        match event {
            Event::Input(key) => match self.app.input_mode {
                InputMode::Normal => match key {
                    Key::Char('e') => Command::Quit,
                    Key::Char('h') => {
                        self.active_menu_item = MenuItem::Home;
                        Command::Redraw
                    },
                    Key::Char('t') => {
                        self.active_menu_item = MenuItem::Tasks;
                        Command::Redraw
                    },
                    Key::Char('a') => {
                        self.app.input_mode = InputMode::Editing;
                        Command::Redraw
                    },
                    Key::Char('p') => Command::ProgressTask,
                    Key::Char('d') => Command::RemoveTask,
                    Key::Down => Command::SelectNext,
                    Key::Up => Command::SelectPrevious,
                    _ => Command::Redraw,
                },
                InputMode::Editing => match key {
                    Key::Enter => {
                        let name = self.app.input.clone();
                        self.app.input = String::new();
                        self.app.input_mode = InputMode::Normal;
                        Command::AddTask(name)
                    },
                    Key::Char(c) => {
                        push_char(&mut self.app.input, c);
                        Command::Redraw
                    },
                    Key::Backspace => {
                        pop_char(&mut self.app.input);
                        Command::Redraw
                    },
                    Key::Esc => {
                        self.app.input_mode = InputMode::Normal;
                        Command::Redraw
                    },
                    _ => Command::Redraw,
                },
            },
            Event::Tick => Command::Redraw,
        }
    }
}

impl Session {
    /// Carries a command out, at the time `now`, on the tasks that were just
    /// read from the store: changes the selection and hands back the tasks
    /// and the text to write, where the store changes. Where the text cannot
    /// be made the session stays as it was.
    pub fn apply_at(&mut self, command: Command, tasks: Vec<Task>, now: Timestamp) -> (written:
        Result<Option<(Vec<Task>, String)>, Error>)
        requires
            command is AddTask ==> highest_id(tasks.deep_view()) < usize::MAX,
        ensures
            final(self).app == old(self).app,
            final(self).active_menu_item == old(self).active_menu_item,
            match command@.stored(old(self).task_list_state, tasks.deep_view(), now@) {
                None => written matches Ok(None) && final(self).task_list_state
                    == command@.selection_after(old(self).task_list_state, tasks.len() as nat),
                Some(stored) => match written {
                    Ok(Some((saved, text))) => saved.deep_view() == stored && document_text(
                        stored,
                    ) == Some(text@) && final(self).task_list_state == command@.selection_after(
                        old(self).task_list_state,
                        tasks.len() as nat,
                    ),
                    Ok(None) => false,
                    Err(error) => error == Error::StoreWrite && document_text(stored) is None
                        && final(self).task_list_state == old(self).task_list_state,
                },
            },
            written matches Ok(Some((saved, _))) ==> saved.len() == command@.len_after(
                old(self).task_list_state,
                tasks.len() as nat,
            ),
            written is Ok && old(self).task_list_state.valid_for(tasks.len() as nat)
                ==> final(self).task_list_state.valid_for(
                command@.len_after(old(self).task_list_state, tasks.len() as nat),
            ),
    {
        proof {
            let selection = self.task_list_state;
            match command@.stored(selection, tasks.deep_view(), now@) {
                Some(stored) => {
                    match command@ {
                        CommandView::AddTask(name) => {
                            lemma_sort_by_id_sorted(
                                tasks.deep_view().push(
                                    TaskView::fresh(
                                        highest_id(tasks.deep_view()) + 1,
                                        name,
                                        now@,
                                    ),
                                ),
                            );
                        },
                        CommandView::ProgressTask => {
                            let index = selection.addressed(tasks.len() as nat)->Some_0;
                            lemma_sort_by_id_sorted(
                                tasks.deep_view().update(
                                    index,
                                    tasks.deep_view()[index].advanced(now@),
                                ),
                            );
                        },
                        CommandView::RemoveTask => {
                            let index = selection.addressed(tasks.len() as nat)->Some_0;
                            lemma_sort_by_id_sorted(tasks.deep_view().remove(index));
                        },
                        _ => {},
                    }
                },
                None => {},
            }
        }
        match command {
            Command::AddTask(name) => {
                match add_task_to_db_at(tasks, name, now) {
                    Ok(saved) => {
                        self.task_list_state.revalidate(saved.0.len());
                        Ok(Some(saved))
                    },
                    Err(error) => Err(error),
                }
            },
            Command::ProgressTask => progress_task_at_index_at(&self.task_list_state, tasks, now),
            Command::RemoveTask => remove_task_at_index(&mut self.task_list_state, tasks),
            Command::SelectNext => {
                self.task_list_state.move_down(tasks.len());
                Ok(None)
            },
            Command::SelectPrevious => {
                self.task_list_state.move_up(tasks.len());
                Ok(None)
            },
            Command::Redraw => Ok(None),
            Command::Quit => Ok(None),
        }
    }

    /// Carries a command out, now by the machine's clock.
    pub fn apply(&mut self, command: Command, tasks: Vec<Task>) -> (written: Result<
        Option<(Vec<Task>, String)>,
        Error,
    >)
        requires
            command is AddTask ==> highest_id(tasks.deep_view()) < usize::MAX,
        ensures
            final(self).app == old(self).app,
            final(self).active_menu_item == old(self).active_menu_item,
            exists|now: Moment|
                match #[trigger] command@.stored(
                    old(self).task_list_state,
                    tasks.deep_view(),
                    now,
                ) {
                    None => written matches Ok(None) && final(self).task_list_state
                        == command@.selection_after(
                        old(self).task_list_state,
                        tasks.len() as nat,
                    ),
                    Some(stored) => match written {
                        Ok(Some((saved, text))) => saved.deep_view() == stored && document_text(
                            stored,
                        ) == Some(text@) && final(self).task_list_state
                            == command@.selection_after(
                            old(self).task_list_state,
                            tasks.len() as nat,
                        ),
                        Ok(None) => false,
                        Err(error) => error == Error::StoreWrite && document_text(stored) is None
                            && final(self).task_list_state == old(self).task_list_state,
                    },
                },
            written matches Ok(Some((saved, _))) ==> saved.len() == command@.len_after(
                old(self).task_list_state,
                tasks.len() as nat,
            ),
            written is Ok && old(self).task_list_state.valid_for(tasks.len() as nat)
                ==> final(self).task_list_state.valid_for(
                command@.len_after(old(self).task_list_state, tasks.len() as nat),
            ),
    {
        self.apply_at(command, tasks, Timestamp::now())
    }
}

/// The code with which the program ends: 0 after a quit, and 1 after a
/// failure that ended the session.
pub fn exit_code(failure: Option<Error>) -> (code: u8)
    ensures
        code == 0 <==> failure is None,
        code == 0 || code == 1,
{
    match failure {
        None => 0,
        Some(_) => 1,
    }
}

} // verus!
