//! The line codec: the two-character-prefix format that the backing file
//! uses. `". "` opens an incomplete todo, `"x "` a complete one, `"| "` a
//! journal entry and `"- "` a note; the rest of the line is the entry text.
//! Any other line is silently dropped.

use vstd::prelude::*;
use vstd::string::StrSliceExecFns;
use crate::entry::{Entry, EntryModel};

verus! {

/// What serializing an entry yields: the two-character prefix chosen by the
/// variant (and, for a todo, by its completion flag), followed by the text.
pub open spec fn serialize_model(e: EntryModel) -> Seq<char> {
    match e {
        EntryModel::Todo { text, complete } => (
            if complete {
                seq!['x', ' ']
            } else {
                seq!['.', ' ']
            }
        ) + text,
        EntryModel::Journal { text } => seq!['|', ' '] + text,
        EntryModel::Note { text } => seq!['-', ' '] + text,
    }
}

/// What parsing a line yields: an entry when the line carries one of the four
/// recognized prefixes, and nothing otherwise.
pub open spec fn parse_model(line: Seq<char>) -> Option<EntryModel> {
    if line.len() >= 2 && line[1] == ' ' {
        let text = line.subrange(2, line.len() as int);
        if line[0] == '.' {
            Some(EntryModel::Todo { text, complete: false })
        } else if line[0] == 'x' {
            Some(EntryModel::Todo { text, complete: true })
        } else if line[0] == '|' {
            Some(EntryModel::Journal { text })
        } else if line[0] == '-' {
            Some(EntryModel::Note { text })
        } else {
            None
        }
    } else {
        None
    }
}

/// Parse one line of the backing file. Returns `None` exactly on the lines
/// the format tolerates and drops: those not starting with one of the four
/// prefixes.
pub fn parse(line: &str) -> (r: Option<Entry>)
    ensures
        match r {
            Some(e) => parse_model(line@) == Some(e@),
            None => parse_model(line@) is None,
        },
{
    let n = line.unicode_len();
    if n < 2 {
        return None;
    }
    if line.get_char(1) != ' ' {
        return None;
    }
    let c0 = line.get_char(0);
    let text = line.substring_char(2, n).to_owned();
    if c0 == '.' {
        Some(Entry::Todo { text, complete: false })
    } else if c0 == 'x' {
        Some(Entry::Todo { text, complete: true })
    } else if c0 == '|' {
        Some(Entry::Journal { text })
    } else if c0 == '-' {
        Some(Entry::Note { text })
    } else {
        None
    }
}

/// Serialize an entry back into its file line: prefix, then text.
pub fn serialize(e: &Entry) -> (r: String)
    ensures
        r@ == serialize_model(e@),
{
    let prefix: &str = match e {
        Entry::Todo { complete, .. } => if *complete {
            "x "
        } else {
            ". "
        },
        Entry::Journal { .. } => "| ",
        Entry::Note { .. } => "- ",
    };
    let text: &String = match e {
        Entry::Todo { text, .. } => text,
        Entry::Journal { text } => text,
        Entry::Note { text } => text,
    };
    let r = prefix.to_owned().concat(text.as_str());
    proof {
        reveal_strlit("x ");
        reveal_strlit(". ");
        reveal_strlit("| ");
        reveal_strlit("- ");
        assert(r@ =~= serialize_model(e@));
    }
    r
}

/// Round-trip law: parsing a serialized entry gives the entry back, for
/// every entry value.
pub proof fn lemma_round_trip(e: EntryModel)
    ensures
        parse_model(serialize_model(e)) == Some(e),
{
    let line = serialize_model(e);
    match e {
        EntryModel::Todo { text, complete } => {
            assert(line.subrange(2, line.len() as int) =~= text);
        },
        EntryModel::Journal { text } => {
            assert(line.subrange(2, line.len() as int) =~= text);
        },
        EntryModel::Note { text } => {
            assert(line.subrange(2, line.len() as int) =~= text);
        },
    }
}

/// Whether a line starts with one of the four recognized prefixes.
pub open spec fn has_entry_prefix(line: Seq<char>) -> bool {
    line.len() >= 2 && line[1] == ' ' && (line[0] == '.' || line[0] == 'x' || line[0] == '|'
        || line[0] == '-')
}

/// Tolerance law: a line that does not start with one of the four prefixes
/// parses to nothing; it is dropped, never an error.
pub proof fn lemma_parse_tolerance(line: Seq<char>)
    requires
        !has_entry_prefix(line),
    ensures
        parse_model(line) is None,
{
}

/// What loading a whole file yields: the entries of the parseable lines, in
/// file order, with every other line dropped.
pub open spec fn load_model(lines: Seq<Seq<char>>) -> Seq<EntryModel>
    decreases lines.len(),
{
    if lines.len() == 0 {
        Seq::empty()
    } else {
        load_model(lines.drop_last()) + (match parse_model(lines.last()) {
            Some(e) => seq![e],
            None => Seq::empty(),
        })
    }
}

/// Build the entry list from the lines of the backing file, keeping file
/// order and dropping unrecognized lines.
pub fn load_entries(lines: &Vec<String>) -> (r: Vec<Entry>)
    ensures
        r.deep_view() == load_model(lines.deep_view()),
{
    let mut r: Vec<Entry> = Vec::new();
    let mut i: usize = 0;
    while i < lines.len()
        invariant
            i <= lines.len(),
            r.deep_view() == load_model(lines.deep_view().take(i as int)),
        decreases lines.len() - i,
    {
        let ghost prev = r.deep_view();
        match parse(lines[i].as_str()) {
            Some(e) => {
                r.push(e);
                proof {
                    assert(r.deep_view() =~= prev + seq![e@]);
                }
            },
            None => {},
        }
        i += 1;
        proof {
            let taken = lines.deep_view().take(i as int);
            assert(taken.drop_last() =~= lines.deep_view().take(i as int - 1));
            assert(taken.last() == lines.deep_view()[i as int - 1]);
        }
    }
    proof {
        assert(lines.deep_view().take(lines.len() as int) =~= lines.deep_view());
    }
    r
}

} // verus!
