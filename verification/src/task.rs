//! One to-do entry.

use crate::text::{
    align_center, align_right, bool_text, centered, int_text, push_bool, push_int, right_aligned,
};
use vstd::prelude::*;
use vstd::string::StringExecFns;

verus! {

/// A task as contracts speak of it: its three fields, the description as a
/// sequence of characters.
pub struct TaskView {
    pub priority: i8,
    pub completed: bool,
    pub description: Seq<char>,
}

/// One to-do entry: how urgent it is, whether it is done, and what it says.
/// A task has no identity of its own; the list addresses it by position.
#[derive(Debug)]
pub struct Task {
    pub priority: i8,
    pub completed: bool,
    pub description: String,
}

impl View for Task {
    type V = TaskView;

    open spec fn view(&self) -> TaskView {
        TaskView {
            priority: self.priority,
            completed: self.completed,
            description: self.description@,
        }
    }
}

/// The views of a list of tasks, in the order of the list.
pub open spec fn task_views(tasks: Seq<Task>) -> Seq<TaskView> {
    tasks.map_values(|t: Task| t@)
}

impl Task {
    /// A fresh task: the given text, priority 0, not completed.
    pub fn new(task: &str) -> (t: Task)
        ensures
            t@ == (TaskView { priority: 0, completed: false, description: task@ }),
    {
        Task { priority: 0, completed: false, description: task.to_owned() }
    }

    /// Replaces the priority and leaves the rest alone.
    pub fn set_priority(&mut self, new_priority: i8)
        ensures
            final(self)@ == (TaskView { priority: new_priority, ..old(self)@ }),
    {
        self.priority = new_priority;
    }

    /// Flips the completion flag and leaves the rest alone.
    pub fn toggle_completed(&mut self)
        ensures
            final(self)@ == (TaskView { completed: !old(self)@.completed, ..old(self)@ }),
    {
        self.completed = !self.completed;
    }

    /// The priority and a copy of the description.
    pub fn get_data(&self) -> (data: (i8, String))
        ensures
            data.0 == self@.priority,
            data.1@ == self@.description,
    {
        (self.priority, self.description.clone())
    }
}

impl Clone for Task {
    fn clone(&self) -> (t: Task)
        ensures
            t@ == self@,
    {
        Task {
            priority: self.priority,
            completed: self.completed,
            description: self.description.clone(),
        }
    }
}

/// A task as the plain listing shows it: the priority at the right of
/// eight columns, the completion flag in the middle of nine, then the
/// description, with a bar between them.
pub open spec fn task_text(t: TaskView) -> Seq<char> {
    right_aligned(int_text(t.priority as int), 8) + seq![' ', '|', ' '] + centered(
        bool_text(t.completed),
        9,
    ) + seq![' ', '|', ' '] + t.description
}

/// The plain listing of the first `n` tasks: a heading, then the tasks in
/// the order of the list, each line closed by a line break.
pub open spec fn listing_text(tasks: Seq<TaskView>, n: int) -> Seq<char>
    decreases n,
{
    if n <= 0 {
        "Priority | Completed | Task\n"@
    } else {
        listing_text(tasks, n - 1) + task_text(tasks[n - 1]) + seq!['\n']
    }
}

impl Task {
    /// The task as the plain listing shows it.
    pub fn to_string(&self) -> (s: String)
        ensures
            s@ == task_text(self@),
    {
        let mut priority = String::new();
        push_int(&mut priority, self.priority as i64);
        let mut completed = String::new();
        push_bool(&mut completed, self.completed);
        let mut s = align_right(priority.as_str(), 8);
        s.push(' ');
        s.push('|');
        s.push(' ');
        s.append(align_center(completed.as_str(), 9).as_str());
        s.push(' ');
        s.push('|');
        s.push(' ');
        s.append(self.description.as_str());
        s
    }
}

/// The plain listing of a list of tasks, as it is printed where no
/// interactive session is wanted.
pub fn simple_listing(data: &Vec<Task>) -> (out: String)
    ensures
        out@ == listing_text(task_views(data@), data@.len() as int),
{
    let mut out = "Priority | Completed | Task\n".to_owned();
    let mut i: usize = 0;
    while i < data.len()
        invariant
            i <= data.len(),
            out@ == listing_text(task_views(data@), i as int),
        decreases data.len() - i,
    {
        out.append(data[i].to_string().as_str());
        out.push('\n');
        i += 1;
    }
    out
}

} // verus!
