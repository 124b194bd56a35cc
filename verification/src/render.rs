//! The renderer, as data: after every event the whole frame is repainted —
//! the fixed bottom status line with the mode label, then the cursor is
//! restored, then every entry in list order, one per line, with the same
//! markers the on-screen editing uses.

use vstd::prelude::*;
use vstd::string::StringExecFns;
use crate::entry::{Entry, EntryModel, Mode};
use crate::machine::{Cursor, Effect, EffectModel, Session};

verus! {

/// The fixed-width status-bar label of each mode: eight characters, name
/// padded with spaces.
pub open spec fn mode_label_model(m: Mode) -> Seq<char> {
    match m {
        Mode::Normal => seq!['N', 'o', 'r', 'm', 'a', 'l', ' ', ' '],
        Mode::Todo => seq!['T', 'o', 'd', 'o', ' ', ' ', ' ', ' '],
        Mode::Note => seq!['N', 'o', 't', 'e', ' ', ' ', ' ', ' '],
        Mode::Journal => seq!['J', 'o', 'u', 'r', 'n', 'a', 'l', ' '],
    }
}

/// The status-bar text for the session's active mode.
pub fn render_statusbar(s: &Session) -> (r: &'static str)
    ensures
        r@ == mode_label_model(s.mode),
{
    match s.mode {
        Mode::Normal => {
            proof {
                reveal_strlit("Normal  ");
                assert("Normal  "@ =~= mode_label_model(Mode::Normal));
            }
            "Normal  "
        },
        Mode::Todo => {
            proof {
                reveal_strlit("Todo    ");
                assert("Todo    "@ =~= mode_label_model(Mode::Todo));
            }
            "Todo    "
        },
        Mode::Note => {
            proof {
                reveal_strlit("Note    ");
                assert("Note    "@ =~= mode_label_model(Mode::Note));
            }
            "Note    "
        },
        Mode::Journal => {
            proof {
                reveal_strlit("Journal ");
                assert("Journal "@ =~= mode_label_model(Mode::Journal));
            }
            "Journal "
        },
    }
}

/// The screen line of one entry: its display marker — `•` for an open todo,
/// `x` for a done one, `|` for a journal entry, `-` for a note — a space,
/// then the text.
pub open spec fn render_node_model(e: EntryModel) -> Seq<char> {
    match e {
        EntryModel::Todo { text, complete } => (
            if complete {
                seq!['x', ' ']
            } else {
                seq!['\u{2022}', ' ']
            }
        ) + text,
        EntryModel::Journal { text } => seq!['|', ' '] + text,
        EntryModel::Note { text } => seq!['-', ' '] + text,
    }
}

/// Render one entry as its screen line.
pub fn render_node(e: &Entry) -> (r: String)
    ensures
        r@ == render_node_model(e@),
{
    let marker: &str = match e {
        Entry::Todo { complete, .. } => if *complete {
            "x "
        } else {
            "\u{2022} "
        },
        Entry::Journal { .. } => "| ",
        Entry::Note { .. } => "- ",
    };
    let text: &String = match e {
        Entry::Todo { text, .. } => text,
        Entry::Journal { text } => text,
        Entry::Note { text } => text,
    };
    let r = marker.to_owned().concat(text.as_str());
    proof {
        reveal_strlit("x ");
        reveal_strlit("\u{2022} ");
        reveal_strlit("| ");
        reveal_strlit("- ");
        assert(r@ =~= render_node_model(e@));
    }
    r
}

/// The first three effects of a frame: jump to the bottom line, write the
/// mode label, and put the cursor back where it was.
pub open spec fn frame_header(m: Mode, cur: Cursor, height: u16) -> Seq<EffectModel> {
    seq![
        EffectModel::MoveTo { to: Cursor { x: 1u16, y: height } },
        EffectModel::Text { s: mode_label_model(m) },
        EffectModel::MoveTo { to: cur },
    ]
}

/// The entry-region effects of a frame: each entry's screen line, in list
/// order, each followed by a line break.
pub open spec fn entry_lines(entries: Seq<EntryModel>) -> Seq<EffectModel>
    decreases entries.len(),
{
    if entries.len() == 0 {
        Seq::empty()
    } else {
        entry_lines(entries.drop_last()) + seq![
            EffectModel::Text { s: render_node_model(entries.last()) },
            EffectModel::Text { s: seq!['\r', '\n'] },
        ]
    }
}

/// A whole frame: status bar at the bottom, cursor restored, then the full
/// entry list repainted from the top.
pub open spec fn frame_model(m: Mode, entries: Seq<EntryModel>, cur: Cursor, height: u16) -> Seq<
    EffectModel,
> {
    frame_header(m, cur, height) + entry_lines(entries)
}

/// Build the effects that repaint the whole frame for the current session,
/// given the cursor position to restore and the terminal height.
pub fn render_frame(s: &Session, cur: Cursor, height: u16) -> (eff: Vec<Effect>)
    ensures
        eff.deep_view() == frame_model(s.mode, s.entries.deep_view(), cur, height),
{
    let mut eff: Vec<Effect> = Vec::new();
    eff.push(Effect::MoveTo { to: Cursor { x: 1, y: height } });
    eff.push(Effect::Text { s: render_statusbar(s).to_owned() });
    eff.push(Effect::MoveTo { to: cur });
    proof {
        assert(eff.deep_view() =~= frame_header(s.mode, cur, height) + entry_lines(
            s.entries.deep_view().take(0),
        ));
    }
    let mut i: usize = 0;
    while i < s.entries.len()
        invariant
            i <= s.entries.len(),
            eff.deep_view() == frame_header(s.mode, cur, height) + entry_lines(
                s.entries.deep_view().take(i as int),
            ),
        decreases s.entries.len() - i,
    {
        let ghost prev = eff.deep_view();
        let line = render_node(&s.entries[i]);
        let ghost line_model = line@;
        let nl = "\r\n".to_owned();
        proof {
            reveal_strlit("\r\n");
            assert(nl@ =~= seq!['\r', '\n']);
        }
        eff.push(Effect::Text { s: line });
        eff.push(Effect::Text { s: nl });
        i += 1;
        proof {
            let dv = s.entries.deep_view();
            let taken = dv.take(i as int);
            assert(eff.deep_view() =~= prev + seq![
                EffectModel::Text { s: line_model },
                EffectModel::Text { s: seq!['\r', '\n'] },
            ]);
            assert(taken.drop_last() =~= dv.take(i as int - 1));
            assert(taken.last() == s.entries@[i as int - 1]@);
            assert(line_model == render_node_model(taken.last()));
            assert(eff.deep_view() =~= frame_header(s.mode, cur, height) + entry_lines(taken));
        }
    }
    proof {
        assert(s.entries.deep_view().take(s.entries.len() as int) =~= s.entries.deep_view());
    }
    eff
}

} // verus!
