//! The interactive session: what it remembers between two keystrokes, and
//! what each keystroke does to it.
//!
//! The session is either waiting for a command (`Normal`) or taking text for
//! one of three purposes. Every key in every mode has a defined effect, so a
//! session never gets stuck and never points at a task that is not there.

use crate::keybinds::{keybind_table, listed, Kc};
use crate::task::{task_views, Task, TaskView};
use crate::text::{chars_of, parse_i8, parse_nat, read_i8, read_usize};
use vstd::prelude::*;
use vstd::string::StrSliceExecFns;

verus! {

/// A character is taken into the text buffer while the buffer holds at most
/// this many characters, so the buffer never holds more than one above it.
pub const TEXT_LIMIT: usize = 80;

/// What the text being entered is for.
#[derive(Clone, Copy, PartialEq, Eq, Structural, Debug)]
pub enum Purpose {
    /// The description of a task to add.
    NewTask,
    /// The index of the task to select.
    SelectTask,
    /// The new priority of the selected task.
    ChangePriority,
}

/// How the session reads the next key.
#[derive(Clone, Copy, PartialEq, Eq, Structural, Debug)]
pub enum Mode {
    /// Keys are commands.
    Normal,
    /// Keys are text, for the given purpose.
    Entering(Purpose),
}

/// The keys that the session tells apart.
#[derive(Clone, Copy, PartialEq, Eq, Structural, Debug)]
pub enum KeyCode {
    Char(char),
    Enter,
    Backspace,
    Esc,
    /// Any key without a meaning to the session.
    Other,
}

/// What happened to a key.
#[derive(Clone, Copy, PartialEq, Eq, Structural, Debug)]
pub enum KeyEventKind {
    Press,
    Repeat,
    Release,
}

/// A key and what happened to it.
#[derive(Clone, Copy, PartialEq, Eq, Structural, Debug)]
pub struct KeyEvent {
    pub code: KeyCode,
    pub kind: KeyEventKind,
}

/// What the terminal reports while the session waits.
#[derive(Clone, Copy, PartialEq, Eq, Structural, Debug)]
pub enum Event {
    Key(KeyEvent),
    /// A resize, the mouse, a paste, the focus: nothing the session acts on.
    Other,
}

/// What the event loop does next.
#[derive(Clone, Copy, PartialEq, Eq, Structural, Debug)]
pub enum Action {
    /// Draw the session, then wait for the next event or the timeout.
    Draw,
    /// Leave the loop: the user asked to quit.
    Quit,
}

/// The session as contracts speak of it.
pub struct AppView {
    /// The tasks, in the order of the list.
    pub tasks: Seq<TaskView>,
    /// The index of the selected task, if one is selected.
    pub selected: Option<nat>,
    pub mode: Mode,
    /// The text entered so far.
    pub text: Seq<char>,
    /// Whether the key binding overlay is shown.
    pub show_keybinds: bool,
    /// Whether completed tasks are listed apart from the pending ones.
    pub split_tasks: bool,
    /// The display name of the file behind the list.
    pub current_file: Seq<char>,
    /// Whether the user asked to quit.
    pub exit: bool,
}

impl AppView {
    /// What holds of a session at all times: a selection points at a task
    /// of the list, the text buffer is within its limit, and outside text
    /// entry the buffer is empty.
    pub open spec fn wf(self) -> bool {
        &&& self.selected matches Some(i) ==> i < self.tasks.len()
        &&& self.text.len() <= TEXT_LIMIT + 1
        &&& self.mode is Normal ==> self.text.len() == 0
    }
}

/// A task as it is when first entered.
pub open spec fn fresh_task(description: Seq<char>) -> TaskView {
    TaskView { priority: 0, completed: false, description }
}

/// The task that index text selects in a list of `len` tasks: the text must
/// read as a number, and the number must be an index of the list.
pub open spec fn selection_of(text: Seq<char>, len: nat) -> Option<nat> {
    match parse_nat(text) {
        Some(i) => if i < len {
            Some(i)
        } else {
            None
        },
        None => None,
    }
}

/// What Enter does with the text entered for `purpose`, before the buffer
/// is cleared and the session goes back to `Normal`.
pub open spec fn commit(s: AppView, purpose: Purpose) -> AppView {
    match purpose {
        Purpose::NewTask => AppView { tasks: s.tasks.push(fresh_task(s.text)), ..s },
        Purpose::SelectTask => AppView { selected: selection_of(s.text, s.tasks.len()), ..s },
        Purpose::ChangePriority => match (parse_i8(s.text), s.selected) {
            (Some(priority), Some(i)) => AppView {
                tasks: s.tasks.update(i as int, TaskView { priority, ..s.tasks[i as int] }),
                ..s
            },
            _ => s,
        },
    }
}

/// The session with its selected task's completion flag flipped, or as it
/// is where none is selected.
pub open spec fn toggled(s: AppView) -> AppView {
    match s.selected {
        Some(i) => AppView {
            tasks: s.tasks.update(
                i as int,
                TaskView { completed: !s.tasks[i as int].completed, ..s.tasks[i as int] },
            ),
            ..s
        },
        None => s,
    }
}

/// The session without its selected task and without a selection. The
/// tasks behind the removed one move up by one.
pub open spec fn deleted(s: AppView) -> AppView {
    match s.selected {
        Some(i) => AppView { tasks: s.tasks.remove(i as int), selected: None, ..s },
        None => AppView { selected: None, ..s },
    }
}

/// The session with an empty buffer, taking text for `purpose`.
pub open spec fn entering(s: AppView, purpose: Purpose) -> AppView {
    AppView { text: Seq::empty(), mode: Mode::Entering(purpose), ..s }
}

/// What a key press does while text is entered for `purpose`.
pub open spec fn step_entering(s: AppView, purpose: Purpose, key: KeyCode) -> AppView {
    match key {
        KeyCode::Esc => AppView { text: Seq::empty(), mode: Mode::Normal, ..s },
        KeyCode::Backspace => if s.text.len() > 0 {
            AppView { text: s.text.drop_last(), ..s }
        } else {
            s
        },
        KeyCode::Enter => AppView { text: Seq::empty(), mode: Mode::Normal, ..commit(s, purpose) },
        KeyCode::Char(c) => if s.text.len() <= TEXT_LIMIT {
            AppView { text: s.text.push(c), ..s }
        } else {
            s
        },
        KeyCode::Other => s,
    }
}

/// What a key press does while the session waits for a command.
pub open spec fn step_normal(s: AppView, key: KeyCode) -> AppView {
    match key {
        KeyCode::Char(c) => if c == 'q' {
            AppView { exit: true, ..s }
        } else if c == 'n' {
            entering(s, Purpose::NewTask)
        } else if c == 's' {
            entering(s, Purpose::SelectTask)
        } else if c == 'p' {
            entering(s, Purpose::ChangePriority)
        } else if c == 't' {
            toggled(s)
        } else if c == 'D' {
            deleted(s)
        } else if c == 'k' {
            AppView { show_keybinds: !s.show_keybinds, ..s }
        } else if c == 'h' {
            AppView { split_tasks: !s.split_tasks, ..s }
        } else {
            s
        },
        KeyCode::Esc => AppView { selected: None, text: Seq::empty(), ..s },
        _ => s,
    }
}

/// What a key press does to the session.
pub open spec fn step(s: AppView, key: KeyCode) -> AppView {
    match s.mode {
        Mode::Normal => step_normal(s, key),
        Mode::Entering(purpose) => step_entering(s, purpose, key),
    }
}

/// What an event, or the timeout that passed without one, does to the
/// session: a key press is a step, anything else leaves it as it is.
pub open spec fn after_event(s: AppView, event: Option<Event>) -> AppView {
    match event {
        Some(Event::Key(key)) => if key.kind is Press {
            step(s, key.code)
        } else {
            s
        },
        _ => s,
    }
}

/// The session after the key presses `keys`, in order.
pub open spec fn run(s: AppView, keys: Seq<KeyCode>) -> AppView
    decreases keys.len(),
{
    if keys.len() == 0 {
        s
    } else {
        step(run(s, keys.drop_last()), keys.last())
    }
}

/// The key that types `c`.
pub open spec fn char_key(c: char) -> KeyCode {
    KeyCode::Char(c)
}

/// The key presses that type `text`.
pub open spec fn typing(text: Seq<char>) -> Seq<KeyCode>
    decreases text.len(),
{
    if text.len() == 0 {
        Seq::empty()
    } else {
        typing(text.drop_last()).push(char_key(text.last()))
    }
}

/// One interactive session over a list of tasks.
#[derive(Debug)]
pub struct App {
    pub(crate) data: Vec<Task>,
    pub(crate) selected: Option<usize>,
    pub(crate) mode: Mode,
    pub(crate) text_buf: String,
    pub(crate) show_keybinds: bool,
    pub(crate) split_tasks: bool,
    pub(crate) current_file: String,
    pub(crate) exit: bool,
}

impl App {
    /// The session as contracts speak of it.
    pub open(crate) spec fn view(&self) -> AppView {
        AppView {
            tasks: task_views(self.data@),
            selected: match self.selected {
                Some(i) => Some(i as nat),
                None => None,
            },
            mode: self.mode,
            text: self.text_buf@,
            show_keybinds: self.show_keybinds,
            split_tasks: self.split_tasks,
            current_file: self.current_file@,
            exit: self.exit,
        }
    }

    /// A session over `data`, shown under the name `current_file`: nothing
    /// selected, no text, both view toggles off, waiting for a command.
    pub fn from(data: Vec<Task>, current_file: &str) -> (app: App)
        ensures
            app@ == (AppView {
                tasks: task_views(data@),
                selected: None,
                mode: Mode::Normal,
                text: Seq::empty(),
                show_keybinds: false,
                split_tasks: false,
                current_file: current_file@,
                exit: false,
            }),
            app@.wf(),
    {
        App {
            data,
            selected: None,
            mode: Mode::Normal,
            text_buf: String::new(),
            show_keybinds: false,
            split_tasks: false,
            current_file: current_file.to_owned(),
            exit: false,
        }
    }

    /// Ends the session and hands the list back, for the caller to store.
    pub fn into_data(self) -> (data: Vec<Task>)
        ensures
            task_views(data@) == self@.tasks,
    {
        self.data
    }

    /// The tasks, in the order of the list.
    pub fn data(&self) -> (data: &Vec<Task>)
        ensures
            task_views(data@) == self@.tasks,
    {
        &self.data
    }

    /// The index of the selected task, if one is selected.
    pub fn selected(&self) -> (selected: Option<usize>)
        ensures
            match selected {
                Some(i) => self@.selected == Some(i as nat),
                None => self@.selected is None,
            },
    {
        self.selected
    }

    /// How the next key is read.
    pub fn mode(&self) -> (mode: Mode)
        ensures
            mode == self@.mode,
    {
        self.mode
    }

    /// The text entered so far.
    pub fn text(&self) -> (text: &str)
        ensures
            text@ == self@.text,
    {
        self.text_buf.as_str()
    }

    /// Whether the key binding overlay is shown.
    pub fn show_keybinds(&self) -> (shown: bool)
        ensures
            shown == self@.show_keybinds,
    {
        self.show_keybinds
    }

    /// Whether completed tasks are listed apart from the pending ones.
    pub fn split_tasks(&self) -> (split: bool)
        ensures
            split == self@.split_tasks,
    {
        self.split_tasks
    }

    /// The display name of the file behind the list.
    pub fn current_file(&self) -> (name: &str)
        ensures
            name@ == self@.current_file,
    {
        self.current_file.as_str()
    }

    /// Whether the user asked to quit.
    pub fn exit_requested(&self) -> (exit: bool)
        ensures
            exit == self@.exit,
    {
        self.exit
    }

    /// What the event loop does next: it draws and waits until the user has
    /// asked to quit.
    pub fn next_action(&self) -> (action: Action)
        ensures
            action == if self@.exit {
                Action::Quit
            } else {
                Action::Draw
            },
    {
        if self.exit {
            Action::Quit
        } else {
            Action::Draw
        }
    }

    /// Takes what the wait brought: an event, or `None` when the timeout
    /// passed. Only a key press changes the session.
    pub fn handle_events(&mut self, event: Option<Event>)
        requires
            old(self)@.wf(),
        ensures
            final(self)@ == after_event(old(self)@, event),
            final(self)@.wf(),
    {
        match event {
            Some(Event::Key(key_event)) => {
                match key_event.kind {
                    KeyEventKind::Press => self.handle_key_press_event(key_event),
                    _ => {},
                }
            },
            _ => {},
        }
    }

    /// Applies one key press to the session.
    pub fn handle_key_press_event(&mut self, key_event: KeyEvent)
        requires
            old(self)@.wf(),
        ensures
            final(self)@ == step(old(self)@, key_event.code),
            final(self)@.wf(),
    {
        match self.mode {
            Mode::Entering(purpose) => {
                match key_event.code {
                    KeyCode::Esc => {
                        self.text_buf = String::new();
                        self.mode = Mode::Normal;
                    },
                    KeyCode::Backspace => {
                        self.text_buf.pop();
                    },
                    KeyCode::Enter => {
                        self.commit(purpose);
                        self.mode = Mode::Normal;
                        self.text_buf = String::new();
                    },
                    KeyCode::Char(value) => {
                        if self.text_buf.as_str().unicode_len() <= TEXT_LIMIT {
                            self.text_buf.push(value);
                        }
                    },
                    KeyCode::Other => {},
                }
            },
            Mode::Normal => {
                match key_event.code {
                    KeyCode::Char(c) => {
                        if c == 'q' {
                            self.exit = true;
                        } else if c == 'n' {
                            self.enter(Purpose::NewTask);
                        } else if c == 's' {
                            self.enter(Purpose::SelectTask);
                        } else if c == 'p' {
                            self.enter(Purpose::ChangePriority);
                        } else if c == 't' {
                            self.toggle_task();
                        } else if c == 'D' {
                            self.delete_task();
                        } else if c == 'k' {
                            self.show_keybinds = !self.show_keybinds;
                        } else if c == 'h' {
                            self.split_tasks = !self.split_tasks;
                        }
                    },
                    KeyCode::Esc => {
                        self.selected = None;
                        self.text_buf = String::new();
                    },
                    _ => {},
                }
            },
        }
    }

    /// Clears the buffer and starts taking text for `purpose`.
    fn enter(&mut self, purpose: Purpose)
        ensures
            final(self)@ == entering(old(self)@, purpose),
    {
        self.text_buf = String::new();
        self.mode = Mode::Entering(purpose);
    }

    /// Applies the text entered for `purpose`. The buffer and the mode stay
    /// as they are.
    fn commit(&mut self, purpose: Purpose)
        requires
            old(self)@.wf(),
        ensures
            final(self)@ == commit(old(self)@, purpose),
    {
        match purpose {
            Purpose::NewTask => {
                let task = Task::new(self.text_buf.as_str());
                self.data.push(task);
                assert(task_views(self.data@) =~= task_views(old(self).data@).push(task@));
            },
            Purpose::SelectTask => {
                let chars = chars_of(self.text_buf.as_str());
                assert(chars@.subrange(0, chars@.len() as int) =~= chars@);
                let len = self.data.len();
                self.selected = match read_usize(&chars, 0, chars.len()) {
                    Some(i) => if i < len {
                        Some(i)
                    } else {
                        None
                    },
                    None => None,
                };
            },
            Purpose::ChangePriority => {
                let chars = chars_of(self.text_buf.as_str());
                assert(chars@.subrange(0, chars@.len() as int) =~= chars@);
                self.change_task_priority(read_i8(&chars, 0, chars.len()));
            },
        }
    }

    /// Removes the selected task, if one is selected, and clears the
    /// selection.
    pub fn delete_task(&mut self)
        requires
            old(self)@.wf(),
        ensures
            final(self)@ == deleted(old(self)@),
    {
        if let Some(i) = self.selected {
            self.data.remove(i);
            assert(task_views(self.data@) =~= task_views(old(self).data@).remove(i as int));
        }
        self.selected = None;
    }

    /// Flips the completion flag of the selected task, if one is selected.
    pub fn toggle_task(&mut self)
        requires
            old(self)@.wf(),
        ensures
            final(self)@ == toggled(old(self)@),
    {
        if let Some(i) = self.selected {
            self.data[i].toggle_completed();
            assert(task_views(self.data@) =~= task_views(old(self).data@).update(
                i as int,
                self.data@[i as int]@,
            ));
        }
    }

    /// Gives the selected task the priority `value`. Without a value or
    /// without a selection nothing changes.
    pub fn change_task_priority(&mut self, value: Option<i8>)
        requires
            old(self)@.wf(),
        ensures
            final(self)@ == match (value, old(self)@.selected) {
                (Some(priority), Some(i)) => AppView {
                    tasks: old(self)@.tasks.update(
                        i as int,
                        TaskView { priority, ..old(self)@.tasks[i as int] },
                    ),
                    ..old(self)@
                },
                _ => old(self)@,
            },
    {
        if let (Some(n), Some(i)) = (value, self.selected) {
            self.data[i].set_priority(n);
            assert(task_views(self.data@) =~= task_views(old(self).data@).update(
                i as int,
                self.data@[i as int]@,
            ));
        }
    }
}

/// What the buffer `buffer` holds after `text` was typed into it: each
/// character is taken while the buffer is within its limit, and dropped
/// otherwise.
pub open spec fn typed(buffer: Seq<char>, text: Seq<char>) -> Seq<char>
    decreases text.len(),
{
    if text.len() == 0 {
        buffer
    } else {
        let before = typed(buffer, text.drop_last());
        if before.len() <= TEXT_LIMIT {
            before.push(text.last())
        } else {
            before
        }
    }
}

/// A key press keeps a session well-formed: afterwards the selection, if
/// there is one, is an index of the list as the key press left it.
pub proof fn lemma_step_keeps_wf(s: AppView, key: KeyCode)
    requires
        s.wf(),
    ensures
        step(s, key).wf(),
{
}

/// A well-formed session is well-formed after every single one of a
/// sequence of key presses, not only after the last.
pub proof fn lemma_run_keeps_wf(s: AppView, keys: Seq<KeyCode>)
    requires
        s.wf(),
    ensures
        forall|k: int| 0 <= k <= keys.len() ==> (#[trigger] run(s, keys.take(k))).wf(),
    decreases keys.len(),
{
    assert forall|k: int| 0 <= k <= keys.len() implies (#[trigger] run(s, keys.take(k))).wf() by {
        if k > 0 {
            let prefix = keys.take(k);
            assert(prefix.drop_last() =~= keys.take(k - 1));
            if k == keys.len() {
                lemma_run_keeps_wf(s, keys.drop_last());
                assert(keys.drop_last().take(k - 1) =~= keys.take(k - 1));
            } else {
                lemma_run_keeps_wf(s, keys.take(k));
            }
            lemma_step_keeps_wf(run(s, keys.take(k - 1)), prefix.last());
        }
    }
}

/// Key presses one after another are the first ones, then the rest.
pub proof fn lemma_run_concat(s: AppView, first: Seq<KeyCode>, rest: Seq<KeyCode>)
    ensures
        run(s, first + rest) == run(run(s, first), rest),
    decreases rest.len(),
{
    if rest.len() > 0 {
        assert((first + rest).drop_last() =~= first + rest.drop_last());
        lemma_run_concat(s, first, rest.drop_last());
    }
}

/// A single key press is one step.
pub proof fn lemma_run_one(s: AppView, key: KeyCode)
    ensures
        run(s, seq![key]) == step(s, key),
{
    let keys = seq![key];
    assert(run(s, keys.drop_last()) == s);
}

/// While text is entered, typing changes the buffer and nothing else.
pub proof fn lemma_typing(s: AppView, text: Seq<char>)
    requires
        s.mode is Entering,
    ensures
        run(s, typing(text)) == (AppView { text: typed(s.text, text), ..s }),
    decreases text.len(),
{
    if text.len() > 0 {
        assert(typing(text).drop_last() =~= typing(text.drop_last()));
        lemma_typing(s, text.drop_last());
    }
}

/// Text within the limit, typed into an empty buffer, is in the buffer.
pub proof fn lemma_typed_within_limit(text: Seq<char>)
    requires
        text.len() <= TEXT_LIMIT + 1,
    ensures
        typed(Seq::empty(), text) == text,
    decreases text.len(),
{
    if text.len() > 0 {
        lemma_typed_within_limit(text.drop_last());
    }
}

/// Deleting always leaves nothing selected, whichever task was selected:
/// with a selection the list loses that task, without one it stays whole.
pub proof fn lemma_delete_clears_selection(s: AppView)
    requires
        s.mode is Normal,
    ensures
        step(s, KeyCode::Char('D')).selected is None,
        step(s, KeyCode::Char('D')).tasks == match s.selected {
            Some(i) => s.tasks.remove(i as int),
            None => s.tasks,
        },
{
}

/// The overlay leaves no command out: a key that changes a session which
/// waits for a command is in the table of key bindings.
pub proof fn lemma_commands_are_listed(s: AppView, key: KeyCode)
    requires
        s.mode is Normal,
        step(s, key) != s,
    ensures
        match key {
            KeyCode::Char(c) => listed(Kc::Char(c)),
            KeyCode::Esc => listed(Kc::Esc),
            _ => false,
        },
{
    let table = keybind_table();
    match key {
        KeyCode::Char(c) => {
            let i: int = if c == 'n' {
                0
            } else if c == 's' {
                1
            } else if c == 'p' {
                2
            } else if c == 't' {
                3
            } else if c == 'D' {
                4
            } else if c == 'h' {
                5
            } else if c == 'k' {
                7
            } else {
                8
            };
            assert(table[i].key == Kc::Char(c));
        },
        KeyCode::Esc => {
            assert(table[6].key == Kc::Esc);
        },
        _ => {},
    }
}

/// `n`, any text, then Escape: the list is as before, the session is back in
/// `Normal` and the buffer is empty. Nothing else has changed either.
pub proof fn lemma_cancelled_entry(s: AppView, text: Seq<char>)
    requires
        s.mode is Normal,
    ensures
        run(s, seq![KeyCode::Char('n')] + typing(text) + seq![KeyCode::Esc]) == (AppView {
            text: Seq::empty(),
            ..s
        }),
{
    let started = entering(s, Purpose::NewTask);
    lemma_run_one(s, KeyCode::Char('n'));
    lemma_run_concat(s, seq![KeyCode::Char('n')], typing(text));
    lemma_typing(started, text);
    lemma_run_concat(s, seq![KeyCode::Char('n')] + typing(text), seq![KeyCode::Esc]);
    lemma_run_one(run(s, seq![KeyCode::Char('n')] + typing(text)), KeyCode::Esc);
}

/// `n`, a text within the limit, then Enter: exactly one task is added, at
/// the end of the list, with that text, priority 0 and not completed. The
/// session is back in `Normal` with an empty buffer.
pub proof fn lemma_committed_entry(s: AppView, text: Seq<char>)
    requires
        s.mode is Normal,
        text.len() <= TEXT_LIMIT + 1,
    ensures
        run(s, seq![KeyCode::Char('n')] + typing(text) + seq![KeyCode::Enter]) == (AppView {
            tasks: s.tasks.push(fresh_task(text)),
            text: Seq::empty(),
            ..s
        }),
{
    let started = entering(s, Purpose::NewTask);
    lemma_run_one(s, KeyCode::Char('n'));
    lemma_run_concat(s, seq![KeyCode::Char('n')], typing(text));
    lemma_typing(started, text);
    lemma_typed_within_limit(text);
    lemma_run_concat(s, seq![KeyCode::Char('n')] + typing(text), seq![KeyCode::Enter]);
    lemma_run_one(run(s, seq![KeyCode::Char('n')] + typing(text)), KeyCode::Enter);
}

/// `p`, any text, then Enter, with no task selected: every task keeps its
/// priority, and the session is back in `Normal` with an empty buffer.
pub proof fn lemma_priority_without_selection(s: AppView, text: Seq<char>)
    requires
        s.mode is Normal,
        s.selected is None,
    ensures
        run(s, seq![KeyCode::Char('p')] + typing(text) + seq![KeyCode::Enter]) == (AppView {
            text: Seq::empty(),
            ..s
        }),
{
    let started = entering(s, Purpose::ChangePriority);
    lemma_run_one(s, KeyCode::Char('p'));
    lemma_run_concat(s, seq![KeyCode::Char('p')], typing(text));
    lemma_typing(started, text);
    lemma_run_concat(s, seq![KeyCode::Char('p')] + typing(text), seq![KeyCode::Enter]);
    lemma_run_one(run(s, seq![KeyCode::Char('p')] + typing(text)), KeyCode::Enter);
}

} // verus!
