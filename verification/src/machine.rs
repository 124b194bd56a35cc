//! The modal input state machine. Each input event is dispatched to the
//! handler of the current mode; a handler returns the visual effects to
//! apply to the terminal and updates the session state. Handlers are pure:
//! applying the effects is the caller's business.

use vstd::prelude::*;
use crate::entry::{Entry, Mode};

verus! {

/// One keyboard event, decoded to what the state machine distinguishes:
/// a printable character (Enter arrives as `Char('\n')`), Escape, Ctrl-C,
/// or anything else (ignored by every handler).
#[derive(Debug, Clone, Copy, PartialEq, Eq, Structural)]
pub enum InputEvent {
    Char(char),
    Esc,
    CtrlC,
    Other,
}

/// A terminal cursor position: column `x` and row `y`, both 1-based.
#[derive(Debug, Clone, Copy, PartialEq, Eq, Structural)]
pub struct Cursor {
    pub x: u16,
    pub y: u16,
}

/// One visual effect for the caller to apply to the terminal, in order:
/// move the cursor to an absolute position, write a string at the cursor,
/// or echo a single typed character.
#[derive(Debug, PartialEq, Eq)]
pub enum Effect {
    MoveTo { to: Cursor },
    Text { s: String },
    Echo { c: char },
}

/// The mathematical model of an [`Effect`], with text as a character
/// sequence. Used only in specifications.
pub enum EffectModel {
    MoveTo { to: Cursor },
    Text { s: Seq<char> },
    Echo { c: char },
}

impl View for Effect {
    type V = EffectModel;

    open spec fn view(&self) -> EffectModel {
        match self {
            Effect::MoveTo { to } => EffectModel::MoveTo { to: *to },
            Effect::Text { s } => EffectModel::Text { s: s@ },
            Effect::Echo { c } => EffectModel::Echo { c: *c },
        }
    }
}

impl DeepView for Effect {
    type V = EffectModel;

    open spec fn deep_view(&self) -> EffectModel {
        self.view()
    }
}

/// The whole editing session: the active mode, the close flag that ends the
/// event loop, and the loaded entry list. The terminal cursor is not stored
/// here; it is read from the terminal and passed in per event.
pub struct Session {
    pub mode: Mode,
    pub close: bool,
    pub entries: Vec<Entry>,
}

/// A cursor that lies on the screen: row and column at least 1.
pub open spec fn cursor_on_screen(c: Cursor) -> bool {
    c.x >= 1 && c.y >= 1
}

/// One step left or up: clamped so the coordinate never drops below 1.
pub open spec fn dec_clamped(v: u16) -> u16 {
    if v <= 1 {
        1u16
    } else {
        (v - 1) as u16
    }
}

/// One step right or down: clamped at the top of the coordinate range, so
/// that the move never overflows.
pub open spec fn inc_clamped(v: u16) -> u16 {
    if v == 0xFFFFu16 {
        v
    } else {
        (v + 1) as u16
    }
}

/// Where a cursor-movement key sends the cursor: h left, j down, k up,
/// l right, clamped to column and row at least 1; any other key leaves the
/// cursor alone.
pub open spec fn move_target(cur: Cursor, key: char) -> Cursor {
    if key == 'h' {
        Cursor { x: dec_clamped(cur.x), y: cur.y }
    } else if key == 'j' {
        Cursor { x: cur.x, y: inc_clamped(cur.y) }
    } else if key == 'k' {
        Cursor { x: cur.x, y: dec_clamped(cur.y) }
    } else if key == 'l' {
        Cursor { x: inc_clamped(cur.x), y: cur.y }
    } else {
        cur
    }
}

/// Mode after the Normal-mode handler: `.` opens Todo, `-` opens Note,
/// `'` opens Journal; every other event leaves the mode unchanged.
pub open spec fn normal_step(m: Mode, evt: InputEvent) -> Mode {
    match evt {
        InputEvent::Char(c) => if c == '.' {
            Mode::Todo
        } else if c == '-' {
            Mode::Note
        } else if c == '\'' {
            Mode::Journal
        } else {
            m
        },
        _ => m,
    }
}

/// Effects of the Normal-mode handler: a cursor move for h/j/k/l, the todo
/// bullet marker for `.`, the journal marker for `'`, nothing otherwise.
pub open spec fn normal_effects(cur: Cursor, evt: InputEvent) -> Seq<EffectModel> {
    match evt {
        InputEvent::Char(c) => if c == 'h' || c == 'j' || c == 'k' || c == 'l' {
            seq![EffectModel::MoveTo { to: move_target(cur, c) }]
        } else if c == '.' {
            seq![EffectModel::Text { s: seq!['\u{2022}', ' '] }]
        } else if c == '\'' {
            seq![EffectModel::Text { s: seq!['|', ' '] }]
        } else {
            Seq::empty()
        },
        _ => Seq::empty(),
    }
}

/// Mode after the Todo-mode handler: Escape and Enter both return to
/// Normal; any printable character keeps (or re-enters) Todo; anything else
/// leaves the mode unchanged.
pub open spec fn todo_step(m: Mode, evt: InputEvent) -> Mode {
    match evt {
        InputEvent::Esc => Mode::Normal,
        InputEvent::Char(c) => if c == '\n' {
            Mode::Normal
        } else {
            Mode::Todo
        },
        _ => m,
    }
}

/// Effects of the Todo-mode handler: a fresh line on Escape or Enter, an
/// echo of any other character, nothing otherwise.
pub open spec fn todo_effects(evt: InputEvent) -> Seq<EffectModel> {
    match evt {
        InputEvent::Esc => seq![EffectModel::Text { s: seq!['\r', '\n'] }],
        InputEvent::Char(c) => if c == '\n' {
            seq![EffectModel::Text { s: seq!['\r', '\n'] }]
        } else {
            seq![EffectModel::Echo { c }]
        },
        _ => Seq::empty(),
    }
}

/// Mode after the Journal-mode handler: Escape returns to Normal; Enter
/// starts a new journal-marked line and stays; any printable character
/// keeps (or re-enters) Journal; anything else leaves the mode unchanged.
pub open spec fn journal_step(m: Mode, evt: InputEvent) -> Mode {
    match evt {
        InputEvent::Esc => Mode::Normal,
        InputEvent::Char(c) => if c == '\n' {
            m
        } else {
            Mode::Journal
        },
        _ => m,
    }
}

/// Effects of the Journal-mode handler: a fresh line on Escape, a fresh
/// journal-marked line on Enter, an echo of any other character, nothing
/// otherwise.
pub open spec fn journal_effects(evt: InputEvent) -> Seq<EffectModel> {
    match evt {
        InputEvent::Esc => seq![EffectModel::Text { s: seq!['\r', '\n'] }],
        InputEvent::Char(c) => if c == '\n' {
            seq![EffectModel::Text { s: seq!['\r', '\n', '|', ' ', ' '] }]
        } else {
            seq![EffectModel::Echo { c }]
        },
        _ => Seq::empty(),
    }
}

/// Mode after one full update step: Ctrl-C changes no mode (it only sets
/// the close flag); otherwise the active mode's handler decides; Note mode
/// handles nothing.
pub open spec fn mode_after(m: Mode, evt: InputEvent) -> Mode {
    if evt == InputEvent::CtrlC {
        m
    } else {
        match m {
            Mode::Normal => normal_step(m, evt),
            Mode::Todo => todo_step(m, evt),
            Mode::Journal => journal_step(m, evt),
            Mode::Note => m,
        }
    }
}

/// Close flag after one update step: set by Ctrl-C, never cleared, and set
/// by nothing else.
pub open spec fn close_after(close: bool, evt: InputEvent) -> bool {
    close || evt == InputEvent::CtrlC
}

/// Effects of one full update step: none on Ctrl-C, else whatever the
/// active mode's handler emits.
pub open spec fn update_effects(m: Mode, cur: Cursor, evt: InputEvent) -> Seq<EffectModel> {
    if evt == InputEvent::CtrlC {
        Seq::empty()
    } else {
        match m {
            Mode::Normal => normal_effects(cur, evt),
            Mode::Todo => todo_effects(evt),
            Mode::Journal => journal_effects(evt),
            Mode::Note => Seq::empty(),
        }
    }
}

/// Apply one cursor-movement key, clamped to keep column and row at
/// least 1.
pub fn move_cursor(cur: Cursor, key: char) -> (r: Cursor)
    ensures
        r == move_target(cur, key),
{
    if key == 'h' {
        Cursor { x: if cur.x <= 1 { 1 } else { cur.x - 1 }, y: cur.y }
    } else if key == 'j' {
        Cursor { x: cur.x, y: if cur.y == 0xFFFF { cur.y } else { cur.y + 1 } }
    } else if key == 'k' {
        Cursor { x: cur.x, y: if cur.y <= 1 { 1 } else { cur.y - 1 } }
    } else if key == 'l' {
        Cursor { x: if cur.x == 0xFFFF { cur.x } else { cur.x + 1 }, y: cur.y }
    } else {
        cur
    }
}

/// The Normal-mode handler: moves the cursor on h/j/k/l and switches to an
/// input mode on `.`, `-` or `'`, emitting the mode's marker.
pub fn normal(s: &mut Session, cur: Cursor, evt: InputEvent) -> (eff: Vec<Effect>)
    ensures
        final(s).mode == normal_step(old(s).mode, evt),
        final(s).close == old(s).close,
        final(s).entries == old(s).entries,
        eff.deep_view() == normal_effects(cur, evt),
{
    let mut eff: Vec<Effect> = Vec::new();
    match evt {
        InputEvent::Char(c) => {
            if c == 'h' || c == 'j' || c == 'k' || c == 'l' {
                eff.push(Effect::MoveTo { to: move_cursor(cur, c) });
            } else if c == '.' {
                eff.push(Effect::Text { s: "\u{2022} ".to_owned() });
                s.mode = Mode::Todo;
                proof {
                    reveal_strlit("\u{2022} ");
                    assert("\u{2022} "@ =~= seq!['\u{2022}', ' ']);
                }
            } else if c == '-' {
                s.mode = Mode::Note;
            } else if c == '\'' {
                eff.push(Effect::Text { s: "| ".to_owned() });
                s.mode = Mode::Journal;
                proof {
                    reveal_strlit("| ");
                    assert("| "@ =~= seq!['|', ' ']);
                }
            }
        },
        _ => {},
    }
    proof {
        assert(eff.deep_view() =~= normal_effects(cur, evt));
    }
    eff
}

/// The Todo-mode handler: Escape or Enter moves to a fresh line and back to
/// Normal; any other character is echoed at the cursor.
pub fn todo(s: &mut Session, evt: InputEvent) -> (eff: Vec<Effect>)
    ensures
        final(s).mode == todo_step(old(s).mode, evt),
        final(s).close == old(s).close,
        final(s).entries == old(s).entries,
        eff.deep_view() == todo_effects(evt),
{
    let mut eff: Vec<Effect> = Vec::new();
    match evt {
        InputEvent::Esc => {
            eff.push(Effect::Text { s: "\r\n".to_owned() });
            s.mode = Mode::Normal;
            proof {
                reveal_strlit("\r\n");
                assert("\r\n"@ =~= seq!['\r', '\n']);
            }
        },
        InputEvent::Char(c) => {
            if c == '\n' {
                eff.push(Effect::Text { s: "\r\n".to_owned() });
                s.mode = Mode::Normal;
                proof {
                    reveal_strlit("\r\n");
                    assert("\r\n"@ =~= seq!['\r', '\n']);
                }
            } else {
                eff.push(Effect::Echo { c });
                s.mode = Mode::Todo;
            }
        },
        _ => {},
    }
    proof {
        assert(eff.deep_view() =~= todo_effects(evt));
    }
    eff
}

/// The Journal-mode handler: Escape moves to a fresh line and back to
/// Normal; Enter starts a new journal-marked line; any other character is
/// echoed at the cursor.
pub fn journal(s: &mut Session, evt: InputEvent) -> (eff: Vec<Effect>)
    ensures
        final(s).mode == journal_step(old(s).mode, evt),
        final(s).close == old(s).close,
        final(s).entries == old(s).entries,
        eff.deep_view() == journal_effects(evt),
{
    let mut eff: Vec<Effect> = Vec::new();
    match evt {
        InputEvent::Esc => {
            eff.push(Effect::Text { s: "\r\n".to_owned() });
            s.mode = Mode::Normal;
            proof {
                reveal_strlit("\r\n");
                assert("\r\n"@ =~= seq!['\r', '\n']);
            }
        },
        InputEvent::Char(c) => {
            if c == '\n' {
                eff.push(Effect::Text { s: "\r\n|  ".to_owned() });
                proof {
                    reveal_strlit("\r\n|  ");
                    assert("\r\n|  "@ =~= seq!['\r', '\n', '|', ' ', ' ']);
                }
            } else {
                eff.push(Effect::Echo { c });
                s.mode = Mode::Journal;
            }
        },
        _ => {},
    }
    proof {
        assert(eff.deep_view() =~= journal_effects(evt));
    }
    eff
}

/// One full update step: Ctrl-C sets the close flag and does nothing else;
/// any other event goes to the handler of the active mode. The entry list
/// never changes.
pub fn update(s: &mut Session, cur: Cursor, evt: InputEvent) -> (eff: Vec<Effect>)
    ensures
        final(s).mode == mode_after(old(s).mode, evt),
        final(s).close == close_after(old(s).close, evt),
        final(s).entries == old(s).entries,
        eff.deep_view() == update_effects(old(s).mode, cur, evt),
{
    match evt {
        InputEvent::CtrlC => {
            s.close = true;
            let eff: Vec<Effect> = Vec::new();
            proof {
                assert(eff.deep_view() =~= update_effects(old(s).mode, cur, evt));
            }
            return eff;
        },
        _ => {},
    }
    match s.mode {
        Mode::Normal => normal(s, cur, evt),
        Mode::Todo => todo(s, evt),
        Mode::Journal => journal(s, evt),
        Mode::Note => {
            let eff: Vec<Effect> = Vec::new();
            proof {
                assert(eff.deep_view() =~= update_effects(old(s).mode, cur, evt));
            }
            eff
        },
    }
}

/// Where the cursor ends after a whole sequence of movement keys, applied
/// left to right.
pub open spec fn apply_moves(cur: Cursor, keys: Seq<char>) -> Cursor
    decreases keys.len(),
{
    if keys.len() == 0 {
        cur
    } else {
        apply_moves(move_target(cur, keys[0]), keys.drop_first())
    }
}

/// Cursor-clamp law: from a cursor on the screen, no sequence of movement
/// keys — repeated left-moves from column 1, repeated up-moves from row 1,
/// or any other — ever drives the column or the row below 1.
pub proof fn lemma_cursor_clamp(cur: Cursor, keys: Seq<char>)
    requires
        cursor_on_screen(cur),
    ensures
        cursor_on_screen(apply_moves(cur, keys)),
    decreases keys.len(),
{
    if keys.len() > 0 {
        lemma_cursor_clamp(move_target(cur, keys[0]), keys.drop_first());
    }
}

/// Determinism law: from Normal, `.` followed by any event other than
/// Escape or Enter leaves the session in Todo mode.
pub proof fn lemma_dot_enters_todo(evt: InputEvent)
    requires
        evt != InputEvent::Esc,
        evt != InputEvent::Char('\n'),
    ensures
        mode_after(mode_after(Mode::Normal, InputEvent::Char('.')), evt) == Mode::Todo,
{
}

/// Determinism law: from Normal, `'` followed by any event other than
/// Escape leaves the session in Journal mode.
pub proof fn lemma_quote_enters_journal(evt: InputEvent)
    requires
        evt != InputEvent::Esc,
    ensures
        mode_after(mode_after(Mode::Normal, InputEvent::Char('\'')), evt) == Mode::Journal,
{
}

/// Determinism law: from Normal, `-` alone ends in Note mode.
pub proof fn lemma_dash_enters_note()
    ensures
        mode_after(Mode::Normal, InputEvent::Char('-')) == Mode::Note,
{
}

/// Escape law: from Todo or Journal, an Escape event always yields Normal,
/// whatever was typed before.
pub proof fn lemma_escape_returns_to_normal(m: Mode)
    requires
        m == Mode::Todo || m == Mode::Journal,
    ensures
        mode_after(m, InputEvent::Esc) == Mode::Normal,
{
}

/// Termination law: at any mode, Ctrl-C sets the close flag, and no other
/// event ever sets it.
pub proof fn lemma_close_only_by_ctrl_c(evt: InputEvent)
    ensures
        close_after(false, evt) <==> evt == InputEvent::CtrlC,
{
}

} // verus!
