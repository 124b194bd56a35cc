//! The entry data model: a journal line is a todo, a note, or a journal
//! entry, each carrying one line of text.

use vstd::prelude::*;

verus! {

/// One journal entry. The text is a single line: it never contains a newline
/// when the entry came out of [`crate::codec::parse`], and serializing an
/// entry whose text holds a newline would not round-trip.
#[derive(Debug, PartialEq, Eq)]
pub enum Entry {
    Todo { text: String, complete: bool },
    Journal { text: String },
    Note { text: String },
}

/// The mathematical model of an [`Entry`]: the same shape with the text as a
/// sequence of characters. Used only in specifications.
pub enum EntryModel {
    Todo { text: Seq<char>, complete: bool },
    Journal { text: Seq<char> },
    Note { text: Seq<char> },
}

impl View for Entry {
    type V = EntryModel;

    open spec fn view(&self) -> EntryModel {
        match self {
            Entry::Todo { text, complete } => EntryModel::Todo {
                text: text@,
                complete: *complete,
            },
            Entry::Journal { text } => EntryModel::Journal { text: text@ },
            Entry::Note { text } => EntryModel::Note { text: text@ },
        }
    }
}

impl DeepView for Entry {
    type V = EntryModel;

    open spec fn deep_view(&self) -> EntryModel {
        self.view()
    }
}

/// The editing mode of the session. Exactly one is active at any time; it is
/// process-wide state, not per-entry.
#[derive(Debug, Clone, Copy, PartialEq, Eq, Structural)]
pub enum Mode {
    Normal,
    Todo,
    Note,
    Journal,
}

} // verus!
