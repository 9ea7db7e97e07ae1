//! The key bindings, as the help overlay lists them.

use vstd::prelude::*;

verus! {

/// The modifier held with a key.
#[derive(Clone, Copy, PartialEq, Eq, Structural, Debug)]
pub enum Km {
    /// No modifier.
    Plain,
    Shift,
}

/// The key of a binding.
#[derive(Clone, Copy, PartialEq, Eq, Structural, Debug)]
pub enum Kc {
    Char(char),
    Esc,
}

/// One key binding: the key, the modifier held with it, and what it does.
#[derive(Debug)]
pub struct Kb {
    pub key: Kc,
    pub modifier: Km,
    pub description: String,
}

/// A key binding as contracts speak of it: its description is a sequence of
/// characters.
pub struct KbView {
    pub key: Kc,
    pub modifier: Km,
    pub description: Seq<char>,
}

impl View for Kb {
    type V = KbView;

    open spec fn view(&self) -> KbView {
        KbView { key: self.key, modifier: self.modifier, description: self.description@ }
    }
}

/// The views of a list of key bindings, in the order of the list.
pub open spec fn kb_views(bindings: Seq<Kb>) -> Seq<KbView> {
    bindings.map_values(|kb: Kb| kb@)
}

/// How a modifier is named: not at all, or `Shift`.
pub open spec fn km_text(modifier: Km) -> Seq<char> {
    match modifier {
        Km::Plain => Seq::empty(),
        Km::Shift => seq!['S', 'h', 'i', 'f', 't'],
    }
}

/// The text of a single character.
pub open spec fn char_text(c: char) -> Seq<char> {
    seq![c]
}

/// How a key is named: a character key by its character, Escape as `Esc`.
pub open spec fn kc_text(key: Kc) -> Seq<char> {
    match key {
        Kc::Char(c) => char_text(c),
        Kc::Esc => seq!['E', 's', 'c'],
    }
}

impl Km {
    /// The modifier's name.
    pub fn to_string(&self) -> (s: String)
        ensures
            s@ == km_text(*self),
    {
        let mut s = String::new();
        match self {
            Km::Plain => {},
            Km::Shift => {
                s.push('S');
                s.push('h');
                s.push('i');
                s.push('f');
                s.push('t');
            },
        }
        s
    }
}

impl Kc {
    /// The key's name.
    pub fn to_string(&self) -> (s: String)
        ensures
            s@ == kc_text(*self),
    {
        let mut s = String::new();
        match self {
            Kc::Char(c) => {
                s.push(*c);
            },
            Kc::Esc => {
                s.push('E');
                s.push('s');
                s.push('c');
            },
        }
        s
    }
}

impl Kb {
    /// A key binding of the given parts.
    pub fn new(key: Kc, modifier: Km, description: &str) -> (kb: Kb)
        ensures
            kb@ == (KbView { key, modifier, description: description@ }),
    {
        Kb { key, modifier, description: description.to_owned() }
    }
}

/// How many key bindings there are.
pub const KEYBIND_COUNT: usize = 9;

/// The key bindings, in the order in which the overlay lists them: every
/// command of the session, with Escape and quitting.
pub open spec fn keybind_table() -> Seq<KbView> {
    seq![
        KbView { key: Kc::Char('n'), modifier: Km::Plain, description: "Create new Task."@ },
        KbView { key: Kc::Char('s'), modifier: Km::Plain, description: "Select Task."@ },
        KbView { key: Kc::Char('p'), modifier: Km::Plain, description: "Change Task Priority."@ },
        KbView { key: Kc::Char('t'), modifier: Km::Plain, description: "Toggle Task Completion."@ },
        KbView { key: Kc::Char('D'), modifier: Km::Shift, description: "Delete Task."@ },
        KbView { key: Kc::Char('h'), modifier: Km::Plain, description: "Split completed tasks."@ },
        KbView { key: Kc::Esc, modifier: Km::Plain, description: "Clear Selected / Cancel Input."@ },
        KbView { key: Kc::Char('k'), modifier: Km::Plain, description: "Show this Modal."@ },
        KbView { key: Kc::Char('q'), modifier: Km::Plain, description: "Quit the App."@ },
    ]
}

/// Whether the table lists `key`.
pub open spec fn listed(key: Kc) -> bool {
    exists|i: int| 0 <= i < keybind_table().len() && (#[trigger] keybind_table()[i]).key == key
}

/// The table of key bindings.
pub fn keybinds() -> (table: Vec<Kb>)
    ensures
        kb_views(table@) == keybind_table(),
        table@.len() == KEYBIND_COUNT,
{
    let mut table: Vec<Kb> = Vec::new();
    table.push(Kb::new(Kc::Char('n'), Km::Plain, "Create new Task."));
    table.push(Kb::new(Kc::Char('s'), Km::Plain, "Select Task."));
    table.push(Kb::new(Kc::Char('p'), Km::Plain, "Change Task Priority."));
    table.push(Kb::new(Kc::Char('t'), Km::Plain, "Toggle Task Completion."));
    table.push(Kb::new(Kc::Char('D'), Km::Shift, "Delete Task."));
    table.push(Kb::new(Kc::Char('h'), Km::Plain, "Split completed tasks."));
    table.push(Kb::new(Kc::Esc, Km::Plain, "Clear Selected / Cancel Input."));
    table.push(Kb::new(Kc::Char('k'), Km::Plain, "Show this Modal."));
    table.push(Kb::new(Kc::Char('q'), Km::Plain, "Quit the App."));
    table
}

} // verus!
