//! The task file: one task per line, `priority,completed,description`.
//!
//! Only the first two commas of a line separate fields, so a description may
//! hold commas of its own. Empty lines carry nothing and are passed over. A
//! line that cannot be read stops the load: nothing is made up in its place.

use crate::task::{task_views, Task, TaskView};
use crate::text::{
    bool_text, chars_of, int_text, is_digit, lemma_parse_int_text, parse_bool, parse_i8, push_bool,
    push_int, read_bool, read_i8, string_of,
};
use vstd::prelude::*;
use vstd::string::StringExecFns;

verus! {

/// Why a line is not a task.
#[derive(Clone, Copy, PartialEq, Eq, Structural, Debug)]
pub enum LineError {
    /// The line has no comma, so no priority ends anywhere.
    MissingPriority,
    /// The line has a single comma, so no completion flag ends anywhere.
    MissingCompleted,
    /// The text before the first comma is not a signed decimal number
    /// between -128 and 127.
    BadPriority,
    /// The text between the first two commas is neither `true` nor `false`.
    BadCompleted,
}

/// The first line of a file that is not a task, counted from 0 with the
/// empty lines included, and what is wrong with it.
#[derive(Clone, Copy, PartialEq, Eq, Structural, Debug)]
pub struct LoadError {
    pub line: usize,
    pub kind: LineError,
}

/// The line that one task is stored as, without the line break.
pub open spec fn task_line(t: TaskView) -> Seq<char> {
    int_text(t.priority as int) + seq![','] + bool_text(t.completed) + seq![','] + t.description
}

/// The file that a list of tasks is stored as: the tasks' lines in order,
/// each closed by a line break.
pub open spec fn tasks_text(ts: Seq<TaskView>) -> Seq<char>
    decreases ts.len(),
{
    if ts.len() == 0 {
        Seq::empty()
    } else {
        task_line(ts[0]) + seq!['\n'] + tasks_text(ts.skip(1))
    }
}

/// The task that a line holds, or why it holds none. The separators are
/// looked for first, then the priority is read, then the flag.
pub open spec fn parse_line(line: Seq<char>) -> Result<TaskView, LineError> {
    match line.index_of_first(',') {
        None => Err(LineError::MissingPriority),
        Some(i) => {
            let rest = line.skip(i + 1);
            match rest.index_of_first(',') {
                None => Err(LineError::MissingCompleted),
                Some(j) => match parse_i8(line.take(i)) {
                    None => Err(LineError::BadPriority),
                    Some(priority) => match parse_bool(rest.take(j)) {
                        None => Err(LineError::BadCompleted),
                        Some(completed) => Ok(
                            TaskView { priority, completed, description: rest.skip(j + 1) },
                        ),
                    },
                },
            }
        },
    }
}

/// The text up to the first line break, or all of it where there is none.
pub open spec fn first_line(text: Seq<char>) -> Seq<char> {
    match text.index_of_first('\n') {
        Some(i) => text.take(i),
        None => text,
    }
}

/// The text behind the first line break, or nothing where there is none.
pub open spec fn after_first_line(text: Seq<char>) -> Seq<char> {
    match text.index_of_first('\n') {
        Some(i) => if 0 <= i < text.len() {
            text.skip(i + 1)
        } else {
            Seq::empty()
        },
        None => Seq::empty(),
    }
}

/// The tasks that `text` holds when its first line has the number `number`,
/// or the number of the first line that is not a task and what is wrong
/// with it.
pub open spec fn parse_lines(text: Seq<char>, number: nat) -> Result<Seq<TaskView>, (nat, LineError)>
    decreases text.len(),
{
    if text.len() == 0 {
        Ok(Seq::empty())
    } else {
        let line = first_line(text);
        let rest = after_first_line(text);
        if line.len() == 0 {
            parse_lines(rest, number + 1)
        } else {
            match parse_line(line) {
                Err(kind) => Err((number, kind)),
                Ok(task) => match parse_lines(rest, number + 1) {
                    Ok(tasks) => Ok(seq![task] + tasks),
                    Err(e) => Err(e),
                },
            }
        }
    }
}

/// The tasks that a file holds, or its first unreadable line.
pub open spec fn parse_text(text: Seq<char>) -> Result<Seq<TaskView>, (nat, LineError)> {
    parse_lines(text, 0)
}

/// An index that holds `c` with no `c` before it is the first index of `c`.
pub proof fn lemma_first_index(s: Seq<char>, c: char, i: int)
    requires
        0 <= i < s.len(),
        s[i] == c,
        forall|j: int| 0 <= j < i ==> s[j] != c,
    ensures
        s.index_of_first(c) == Some(i),
{
    s.index_of_first_ensures(c);
}

/// A text without `c` has no first index of `c`.
pub proof fn lemma_no_index(s: Seq<char>, c: char)
    requires
        forall|j: int| 0 <= j < s.len() ==> s[j] != c,
    ensures
        s.index_of_first(c) is None,
{
    s.index_of_first_ensures(c);
}

/// Where `c` first stands in `s[from..to]`, as an index into `s`.
pub fn find_char(s: &Vec<char>, from: usize, to: usize, c: char) -> (r: Option<usize>)
    requires
        from <= to <= s.len(),
    ensures
        match r {
            Some(i) => from <= i < to && s@.subrange(from as int, to as int).index_of_first(c)
                == Some(i - from),
            None => s@.subrange(from as int, to as int).index_of_first(c) is None,
        },
{
    let ghost part = s@.subrange(from as int, to as int);
    let mut i: usize = from;
    while i < to
        invariant
            from <= i <= to <= s.len(),
            part == s@.subrange(from as int, to as int),
            forall|j: int| 0 <= j < i - from ==> part[j] != c,
        decreases to - i,
    {
        if s[i] == c {
            proof {
                lemma_first_index(part, c, i - from);
            }
            return Some(i);
        }
        i += 1;
    }
    proof {
        lemma_no_index(part, c);
    }
    None
}

/// Reads the line `s[from..to]` as a task.
pub fn read_line(s: &Vec<char>, from: usize, to: usize) -> (r: Result<Task, LineError>)
    requires
        from <= to <= s.len(),
    ensures
        match parse_line(s@.subrange(from as int, to as int)) {
            Ok(t) => r is Ok && r->Ok_0@ == t,
            Err(e) => r == Err::<Task, LineError>(e),
        },
{
    let ghost line = s@.subrange(from as int, to as int);
    let first = match find_char(s, from, to, ',') {
        Some(i) => i,
        None => { return Err(LineError::MissingPriority); },
    };
    let ghost rest = line.skip(first - from + 1);
    assert(rest =~= s@.subrange(first + 1, to as int));
    let second = match find_char(s, first + 1, to, ',') {
        Some(j) => j,
        None => { return Err(LineError::MissingCompleted); },
    };
    assert(line.take(first - from) =~= s@.subrange(from as int, first as int));
    assert(rest.take(second - first - 1) =~= s@.subrange(first + 1, second as int));
    assert(rest.skip(second - first) =~= s@.subrange(second + 1, to as int));
    let priority = match read_i8(s, from, first) {
        Some(p) => p,
        None => { return Err(LineError::BadPriority); },
    };
    let completed = match read_bool(s, first + 1, second) {
        Some(c) => c,
        None => { return Err(LineError::BadCompleted); },
    };
    Ok(Task { priority, completed, description: string_of(s, second + 1, to) })
}

/// Reads a task file. Every line that is not empty must be a task; the
/// first one that is not stops the load and is reported.
pub fn load_data(input: &str) -> (r: Result<Vec<Task>, LoadError>)
    ensures
        match parse_text(input@) {
            Ok(ts) => r is Ok && task_views(r->Ok_0@) == ts,
            Err((line, kind)) => r == Err::<Vec<Task>, LoadError>(
                LoadError { line: line as usize, kind },
            ) && line <= usize::MAX,
        },
{
    let chars = chars_of(input);
    let len = chars.len();
    let mut out: Vec<Task> = Vec::new();
    let mut pos: usize = 0;
    let mut number: usize = 0;
    proof {
        assert(chars@.skip(0) =~= input@);
        if let Ok(ts) = parse_text(input@) {
            assert(task_views(out@) + ts =~= ts);
        }
    }
    while pos < len
        invariant
            len == chars.len(),
            chars@ == input@,
            pos <= len,
            number <= pos,
            parse_text(input@) == match parse_lines(chars@.skip(pos as int), number as nat) {
                Ok(ts) => Ok(task_views(out@) + ts),
                Err(e) => Err(e),
            },
        decreases len - pos,
    {
        let ghost text = chars@.skip(pos as int);
        let (end, next) = match find_char(&chars, pos, len, '\n') {
            Some(i) => (i, i + 1),
            None => (len, len),
        };
        assert(first_line(text) =~= chars@.subrange(pos as int, end as int));
        assert(after_first_line(text) =~= chars@.skip(next as int));
        if end > pos {
            match read_line(&chars, pos, end) {
                Ok(task) => {
                    let ghost before = out@;
                    out.push(task);
                    proof {
                        let rest = parse_lines(chars@.skip(next as int), (number + 1) as nat);
                        if let Ok(ts) = rest {
                            assert(task_views(before) + (seq![task@] + ts) =~= task_views(out@)
                                + ts);
                        }
                    }
                },
                Err(kind) => {
                    return Err(LoadError { line: number, kind });
                },
            }
        }
        pos = next;
        number = number + 1;
    }
    Ok(out)
}

/// Writes a task file: each task on a line of its own, in the list's order.
pub fn save_data(data: &Vec<Task>) -> (out: String)
    ensures
        out@ == tasks_text(task_views(data@)),
{
    let ghost views = task_views(data@);
    let mut out = String::new();
    let mut i: usize = 0;
    proof {
        assert(views.skip(0) =~= views);
    }
    while i < data.len()
        invariant
            i <= data.len(),
            views == task_views(data@),
            out@ + tasks_text(views.skip(i as int)) == tasks_text(views),
        decreases data.len() - i,
    {
        let ghost before = out@;
        let task = &data[i];
        push_int(&mut out, task.priority as i64);
        out.push(',');
        push_bool(&mut out, task.completed);
        out.push(',');
        out.append(task.description.as_str());
        out.push('\n');
        proof {
            assert(views.skip(i as int).skip(1) =~= views.skip(i + 1));
            assert(out@ =~= before + (task_line(task@) + seq!['\n']));
        }
        i += 1;
    }
    out
}

/// A task's line reads back as the task, whatever its description holds,
/// and has a line break in it only where the description has one.
pub proof fn lemma_parse_task_line(t: TaskView)
    ensures
        parse_line(task_line(t)) == Ok::<TaskView, LineError>(t),
        task_line(t).len() > 0,
        !t.description.contains('\n') ==> !task_line(t).contains('\n'),
{
    let p = int_text(t.priority as int);
    let b = bool_text(t.completed);
    let d = t.description;
    let line = task_line(t);
    lemma_parse_int_text(t.priority as int);
    assert forall|j: int| 0 <= j < p.len() implies p[j] != ',' && p[j] != '\n' by {
        assert(is_digit(p[j]) || p[j] == '-');
    }
    assert forall|j: int| 0 <= j < b.len() implies b[j] != ',' && b[j] != '\n' by {}
    assert forall|j: int| 0 <= j < p.len() implies line[j] != ',' by {
        assert(line[j] == p[j]);
    }
    lemma_first_index(line, ',', p.len() as int);
    let rest = line.skip(p.len() as int + 1);
    assert(rest =~= b + seq![','] + d);
    assert forall|j: int| 0 <= j < b.len() implies rest[j] != ',' by {
        assert(rest[j] == b[j]);
    }
    lemma_first_index(rest, ',', b.len() as int);
    assert(line.take(p.len() as int) =~= p);
    assert(rest.take(b.len() as int) =~= b);
    assert(rest.skip(b.len() as int + 1) =~= d);
    if !d.contains('\n') {
        assert forall|j: int| 0 <= j < line.len() implies line[j] != '\n' by {
            if j < p.len() {
                assert(line[j] == p[j]);
            } else if p.len() < j < p.len() + 1 + b.len() {
                assert(line[j] == b[j - p.len() - 1]);
            } else if j > p.len() + 1 + b.len() {
                assert(d.contains(d[j - p.len() - b.len() - 2]));
            }
        }
    }
}

/// The file written for a list reads back as that list, from whatever line
/// number the count starts, as long as no description holds a line break.
pub proof fn lemma_round_trip_from(ts: Seq<TaskView>, number: nat)
    requires
        forall|i: int| 0 <= i < ts.len() ==> !(#[trigger] ts[i]).description.contains('\n'),
    ensures
        parse_lines(tasks_text(ts), number) == Ok::<Seq<TaskView>, (nat, LineError)>(ts),
    decreases ts.len(),
{
    if ts.len() == 0 {
        assert(ts =~= Seq::<TaskView>::empty());
    } else {
        let line = task_line(ts[0]);
        let tail = tasks_text(ts.skip(1));
        let text = tasks_text(ts);
        lemma_parse_task_line(ts[0]);
        assert forall|j: int| 0 <= j < line.len() implies text[j] != '\n' by {
            assert(line.contains(line[j]));
        }
        lemma_first_index(text, '\n', line.len() as int);
        assert(first_line(text) =~= line);
        assert(after_first_line(text) =~= tail);
        lemma_round_trip_from(ts.skip(1), number + 1);
        assert(seq![ts[0]] + ts.skip(1) =~= ts);
    }
}

/// Saving a list and loading what was saved gives the list back: the same
/// priority, flag and description for every task, in the same order. It
/// holds for every list in which no description holds a line break.
pub proof fn lemma_save_then_load(ts: Seq<TaskView>)
    requires
        forall|i: int| 0 <= i < ts.len() ==> !(#[trigger] ts[i]).description.contains('\n'),
    ensures
        parse_text(tasks_text(ts)) == Ok::<Seq<TaskView>, (nat, LineError)>(ts),
{
    lemma_round_trip_from(ts, 0);
}

} // verus!
