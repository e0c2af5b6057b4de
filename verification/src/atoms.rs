//! Atoms: the primitive, idempotent operations that plans are made of.
use vstd::prelude::*;

verus! {

/// One primitive operation. An atom knows nothing of the action it was planned
/// for, and a plan is a `Vec` of atoms that the executor runs front to back.
#[derive(Clone, Debug, PartialEq, Eq)]
pub enum Atom {
    /// Run a command.
    Exec { command: String, arguments: Vec<String>, working_dir: Option<String>, privileged: bool },
    /// Create a file unless it is there already.
    Create { path: String },
    /// Set the permission bits of a file.
    Chmod { path: String, mode: u32 },
    /// Replace what a file holds.
    SetContents { path: String, contents: String },
}

/// An atom as contracts speak of it: text as sequences of characters.
pub enum AtomView {
    Exec {
        command: Seq<char>,
        arguments: Seq<Seq<char>>,
        working_dir: Option<Seq<char>>,
        privileged: bool,
    },
    Create { path: Seq<char> },
    Chmod { path: Seq<char>, mode: u32 },
    SetContents { path: Seq<char>, contents: Seq<char> },
}

/// The text of an optional string.
pub open spec fn text_of(s: Option<String>) -> Option<Seq<char>> {
    match s {
        Some(s) => Some(s@),
        None => None,
    }
}

impl DeepView for Atom {
    type V = AtomView;

    open spec fn deep_view(&self) -> AtomView {
        match *self {
            Atom::Exec { command, arguments, working_dir, privileged } => AtomView::Exec {
                command: command@,
                arguments: arguments.deep_view(),
                working_dir: text_of(working_dir),
                privileged,
            },
            Atom::Create { path } => AtomView::Create { path: path@ },
            Atom::Chmod { path, mode } => AtomView::Chmod { path: path@, mode },
            Atom::SetContents { path, contents } => AtomView::SetContents {
                path: path@,
                contents: contents@,
            },
        }
    }
}

impl View for Atom {
    type V = AtomView;

    open spec fn view(&self) -> AtomView {
        self.deep_view()
    }
}

/// A command run in the current directory without privileges.
pub open spec fn command(name: Seq<char>, arguments: Seq<Seq<char>>) -> AtomView {
    AtomView::Exec { command: name, arguments, working_dir: None, privileged: false }
}

impl Atom {
    /// A command with its arguments, run in the current directory without
    /// privileges.
    pub fn exec(name: &str, arguments: Vec<String>) -> (atom: Atom)
        ensures
            atom@ == command(name@, arguments.deep_view()),
    {
        Atom::Exec { command: name.to_owned(), arguments, working_dir: None, privileged: false }
    }

    /// Whether the executor has to raise its privileges for this atom.
    pub fn is_privileged(&self) -> (privileged: bool)
        ensures
            privileged == (self@ matches AtomView::Exec { privileged: true, .. }),
    {
        match self {
            Atom::Exec { privileged, .. } => *privileged,
            _ => false,
        }
    }
}

/// `text` as a vector of owned strings.
pub fn words(text: &[&str]) -> (owned: Vec<String>)
    ensures
        owned.deep_view() == text@.map_values(|word: &str| word@),
{
    let mut owned: Vec<String> = Vec::new();
    let mut i: usize = 0;
    while i < text.len()
        invariant
            i <= text.len(),
            owned.len() == i,
            forall|j: int| 0 <= j < i ==> owned[j]@ == text[j]@,
        decreases text.len() - i,
    {
        owned.push(text[i].to_owned());
        i = i + 1;
    }
    owned
}

/// Appends a copy of each string of `more` to `list`, in order.
pub fn append_copies(list: &mut Vec<String>, more: &Vec<String>)
    ensures
        final(list).deep_view() == old(list).deep_view() + more.deep_view(),
{
    let ghost before = list.deep_view();
    let mut i: usize = 0;
    while i < more.len()
        invariant
            i <= more.len(),
            list.deep_view() == before + more.deep_view().subrange(0, i as int),
        decreases more.len() - i,
    {
        let ghost so_far = list.deep_view();
        list.push(more[i].clone());
        assert(list.deep_view() =~= so_far.push(more[i as int]@));
        assert(more.deep_view().subrange(0, i + 1) =~= more.deep_view().subrange(0, i as int).push(
            more[i as int]@,
        ));
        i = i + 1;
    }
}

/// Moves the atoms of `more` to the end of `plan`, in order.
pub fn append_atoms(plan: &mut Vec<Atom>, more: Vec<Atom>)
    ensures
        final(plan).deep_view() == old(plan).deep_view() + more.deep_view(),
{
    let mut more = more;
    let ghost moved = more.deep_view();
    plan.append(&mut more);
    assert(plan.deep_view() =~= old(plan).deep_view() + moved);
}

} // verus!
