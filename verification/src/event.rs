//! What each input event does to the launcher, and what the launcher asks
//! its caller to do next.
use vstd::prelude::*;
use vstd::string::StringExecFns;
use crate::app::{App, AppView, entry_at_selection, filter_result, law_refiltered_well_formed, law_single_steps_allowed, law_moved_well_formed, law_selection_has_entry, law_shown_list_fits};
use crate::text::{push_char, pop_char};

verus! {

/// A key, as far as the launcher tells keys apart.
#[derive(Debug, Clone, Copy, PartialEq, Eq, Structural)]
pub enum KeyCode {
    Char(char),
    Enter,
    Esc,
    Tab,
    Backspace,
    Up,
    Down,
    Other,
}

/// An input event from the terminal.
#[derive(Debug, Clone, Copy, PartialEq, Eq, Structural)]
pub enum InputEvent {
    /// A key event: the key, whether Control was held, and whether the key was released.
    Key { code: KeyCode, ctrl: bool, release: bool },
    /// The mouse wheel turned one notch up.
    ScrollUp,
    /// The mouse wheel turned one notch down.
    ScrollDown,
    /// Any other event (clicks, resizes, focus changes).
    Other,
}

/// What the launcher asks its caller to do.
#[derive(Debug, Clone, PartialEq, Eq)]
pub enum Action {
    /// Leave the launcher.
    Quit,
    /// Run this shell command, then come back.
    Run(String),
}

/// The search text after Backspace: the last character removed, if any.
pub open spec fn without_last(s: Seq<char>) -> Seq<char> {
    if s.len() == 0 {
        s
    } else {
        s.drop_last()
    }
}

/// The state after an event, and the action it asks for.
pub open spec fn step(v: AppView, ev: InputEvent) -> (AppView, Option<Action>) {
    match ev {
        InputEvent::Key { code, ctrl, release } => {
            if release {
                (v, None)
            } else if code == KeyCode::Char('c') && ctrl {
                (v, Some(Action::Quit))
            } else if v.show_notes {
                if code == KeyCode::Esc || code == KeyCode::Tab {
                    (v.with_notes(false), None)
                } else {
                    (v, None)
                }
            } else {
                match code {
                    KeyCode::Esc => (v, Some(Action::Quit)),
                    KeyCode::Enter => match entry_at_selection(v.entries, v.filtered, v.selected) {
                        Some(e) => (v, Some(Action::Run(e.command))),
                        None => (v, None),
                    },
                    KeyCode::Up => (v.moved(-1i32), None),
                    KeyCode::Down => (v.moved(1i32), None),
                    KeyCode::Backspace => (v.with_filter(without_last(v.filter)).refiltered(), None),
                    KeyCode::Tab => (v.with_notes(true), None),
                    KeyCode::Char(c) => (v.with_filter(v.filter.push(c)).refiltered(), None),
                    KeyCode::Other => (v, None),
                }
            }
        },
        InputEvent::ScrollUp => (v.moved(-1i32), None),
        InputEvent::ScrollDown => (v.moved(1i32), None),
        InputEvent::Other => (v, None),
    }
}

/// The number of rows an event moves the selection by, if it moves it.
pub open spec fn moves_by(v: AppView, ev: InputEvent) -> Option<i32> {
    match ev {
        InputEvent::Key { code, ctrl, release } => {
            if release || (code == KeyCode::Char('c') && ctrl) || v.show_notes {
                None
            } else {
                match code {
                    KeyCode::Up => Some(-1i32),
                    KeyCode::Down => Some(1i32),
                    _ => None,
                }
            }
        },
        InputEvent::ScrollUp => Some(-1i32),
        InputEvent::ScrollDown => Some(1i32),
        InputEvent::Other => None,
    }
}

/// Applies one input event to the launcher and returns the action it asks
/// for: key releases are ignored; Control-C quits; while the notes popup is
/// open only Esc and Tab (which close it) do anything; otherwise Esc quits,
/// Enter runs the selected command, the arrows and the wheel move the
/// selection, Tab opens the notes, and typing or Backspace edits the search
/// text and refilters.
pub fn handle_event(app: &mut App, ev: InputEvent) -> (act: Option<Action>)
    requires
        moves_by(old(app)@, ev) matches Some(d) ==> old(app)@.can_move(d),
    ensures
        (final(app)@, act) == step(old(app)@, ev),
{
    match ev {
        InputEvent::Key { code, ctrl, release } => {
            if release {
                return None;
            }
            if code == KeyCode::Char('c') && ctrl {
                return Some(Action::Quit);
            }
            if app.show_notes {
                match code {
                    KeyCode::Esc | KeyCode::Tab => {
                        app.show_notes = false;
                    },
                    _ => {},
                }
                return None;
            }
            match code {
                KeyCode::Esc => Some(Action::Quit),
                KeyCode::Enter => match app.selected_entry() {
                    Some(e) => Some(Action::Run(e.command.clone())),
                    None => None,
                },
                KeyCode::Up => {
                    app.move_selection(-1);
                    None
                },
                KeyCode::Down => {
                    app.move_selection(1);
                    None
                },
                KeyCode::Backspace => {
                    let _ = pop_char(&mut app.filter);
                    app.apply_filter();
                    None
                },
                KeyCode::Tab => {
                    app.show_notes = true;
                    None
                },
                KeyCode::Char(c) => {
                    push_char(&mut app.filter, c);
                    app.apply_filter();
                    None
                },
                KeyCode::Other => None,
            }
        },
        InputEvent::ScrollDown => {
            app.move_selection(1);
            None
        },
        InputEvent::ScrollUp => {
            app.move_selection(-1);
            None
        },
        InputEvent::Other => None,
    }
}

/// Whether `handle_event` accepts `ev` in this state: a move of the
/// selection must keep the row arithmetic within `i32` and must not divide
/// by zero.
pub fn step_allowed(app: &App, ev: InputEvent) -> (b: bool)
    ensures
        b == (moves_by(app@, ev) matches Some(d) ==> app@.can_move(d)),
{
    let delta: i32 = match ev {
        InputEvent::Key { code, ctrl, release } => {
            if release || (code == KeyCode::Char('c') && ctrl) || app.show_notes {
                return true;
            }
            match code {
                KeyCode::Up => -1,
                KeyCode::Down => 1,
                _ => {
                    return true;
                },
            }
        },
        InputEvent::ScrollUp => -1,
        InputEvent::ScrollDown => 1,
        InputEvent::Other => {
            return true;
        },
    };
    if app.filtered.len() == 0 {
        return true;
    }
    let len = app.filtered.len() as i32;
    let cur = match app.selected {
        Some(s) => s,
        None => 0,
    } as i32;
    let sum = cur as i64 + delta as i64;
    len != 0 && i32::MIN as i64 <= sum && sum <= i32::MAX as i64 && !(sum == i32::MIN as i64
        && len == -1)
}

/// Whether to wait for the user before going back to the list after a
/// command: only when the command could not be started (`None`) or did not
/// exit successfully (`Some(false)`).
pub fn needs_pause(success: Option<bool>) -> (b: bool)
    ensures
        b == (success != Some(true)),
{
    match success {
        Some(ok) => !ok,
        None => true,
    }
}

/// The shell that runs commands: `$SHELL` when it is set, else `/bin/sh`.
pub fn shell_program(shell_var: Option<String>) -> (s: String)
    ensures
        shell_var matches Some(v) ==> s@ == v@,
        shell_var is None ==> s@ == "/bin/sh"@,
{
    match shell_var {
        Some(v) => v,
        None => String::from_str("/bin/sh"),
    }
}

/// A pressed key with no Control held.
pub open spec fn press(code: KeyCode) -> InputEvent {
    InputEvent::Key { code: code, ctrl: false, release: false }
}

/// Every event keeps a well-formed state well-formed (with fewer than 2^31
/// entries, so that rows fit the row arithmetic), and every move it makes is
/// one that `handle_event` accepts.
pub proof fn law_step_keeps_well_formed(v: AppView, ev: InputEvent)
    requires
        v.well_formed(),
        v.entries.len() <= i32::MAX,
    ensures
        moves_by(v, ev) matches Some(d) ==> v.can_move(d),
        step(v, ev).0.well_formed(),
{
    law_single_steps_allowed(v);
    law_shown_list_fits(v);
    law_moved_well_formed(v, 1i32);
    law_moved_well_formed(v, -1i32);
    law_refiltered_well_formed(v.with_filter(without_last(v.filter)));
    match ev {
        InputEvent::Key { code, ctrl, release } => {
            if let KeyCode::Char(c) = code {
                law_refiltered_well_formed(v.with_filter(v.filter.push(c)));
            }
        },
        _ => {},
    }
}

/// Typing a character and then deleting it brings back the search text and
/// the list that it shows.
pub proof fn law_type_then_erase(v: AppView, c: char)
    requires
        !v.show_notes,
    ensures
        ({
            let typed = step(v, press(KeyCode::Char(c))).0;
            let erased = step(typed, press(KeyCode::Backspace)).0;
            &&& erased.filter == v.filter
            &&& erased.entries == v.entries
            &&& erased.filtered == filter_result(v.filter, v.entries)
        }),
{
    let typed = step(v, press(KeyCode::Char(c))).0;
    assert(without_last(typed.filter) =~= v.filter);
}

/// While the notes popup is open, no key but Control-C asks for an action,
/// and none changes the entries, the search, the list or the selection.
pub proof fn law_popup_absorbs_keys(v: AppView, code: KeyCode, ctrl: bool)
    requires
        v.show_notes,
        !(code == KeyCode::Char('c') && ctrl),
    ensures
        step(v, InputEvent::Key { code: code, ctrl: ctrl, release: false }).1 is None,
        ({
            let w = step(v, InputEvent::Key { code: code, ctrl: ctrl, release: false }).0;
            &&& w.entries == v.entries
            &&& w.filter == v.filter
            &&& w.filtered == v.filtered
            &&& w.selected == v.selected
        }),
{
}

/// Control-C always quits, and Esc quits outside the popup; neither changes
/// the state. Key releases change nothing and ask for nothing.
pub proof fn law_quit_keys(v: AppView, code: KeyCode, ctrl: bool)
    ensures
        step(v, InputEvent::Key { code: KeyCode::Char('c'), ctrl: true, release: false }) == (
        v,
        Some(Action::Quit),
        ),
        !v.show_notes ==> step(v, press(KeyCode::Esc)) == (v, Some(Action::Quit)),
        step(v, InputEvent::Key { code: code, ctrl: ctrl, release: true }) == (v, None::<Action>),
{
}

/// In a well-formed state outside the popup, Enter asks to run the command of
/// the selected entry when the list is not empty, and nothing otherwise.
pub proof fn law_enter_runs_selected(v: AppView)
    requires
        v.well_formed(),
        !v.show_notes,
    ensures
        step(v, press(KeyCode::Enter)).0 == v,
        v.filtered.len() > 0 ==> step(v, press(KeyCode::Enter)).1 == Some(
            Action::Run(v.entries[v.filtered[v.selected.unwrap() as int] as int].command),
        ),
        v.filtered.len() == 0 ==> step(v, press(KeyCode::Enter)).1 is None,
{
    law_selection_has_entry(v);
}

/// Only a pressed Enter outside the popup asks to run a command, and then it
/// is the command of the selected entry; only a pressed Control-C, or a
/// pressed Esc outside the popup, asks to quit. Every other event asks for
/// nothing.
pub proof fn law_actions_only_from_keys(v: AppView, ev: InputEvent)
    ensures
        step(v, ev).1 matches Some(Action::Run(c)) ==> {
            &&& ev matches InputEvent::Key { code: KeyCode::Enter, release: false, .. }
            &&& !v.show_notes
            &&& entry_at_selection(v.entries, v.filtered, v.selected) matches Some(e)
            &&& e.command == c
        },
        step(v, ev).1 == Some(Action::Quit) ==> (ev matches InputEvent::Key { code, ctrl, release }
            && !release && ((code == KeyCode::Char('c') && ctrl) || (code == KeyCode::Esc
            && !v.show_notes))),
{
}

/// Outside the popup, the arrows move the selection by one row (wrapping),
/// typing a character appends it to the search text, Backspace removes the
/// last character, and Tab opens the popup; none of them asks for an action.
pub proof fn law_editing_keys(v: AppView, c: char)
    requires
        v.well_formed(),
        !v.show_notes,
        v.filtered.len() > 0,
        v.filtered.len() <= i32::MAX,
    ensures
        ({
            let len = v.filtered.len();
            let row = v.selected.unwrap() as int;
            &&& step(v, press(KeyCode::Down)).0.selected == Some(
                (if row + 1 < len {
                    row + 1
                } else {
                    0
                }) as usize,
            )
            &&& step(v, press(KeyCode::Up)).0.selected == Some(
                (if row > 0 {
                    row - 1
                } else {
                    len - 1
                }) as usize,
            )
            &&& step(v, press(KeyCode::Char(c))).0.filter == v.filter.push(c)
            &&& step(v, press(KeyCode::Char(c))).1 is None
            &&& v.filter.len() > 0 ==> step(v, press(KeyCode::Backspace)).0.filter
                == v.filter.subrange(0, v.filter.len() - 1)
            &&& step(v, press(KeyCode::Tab)).0.show_notes
            &&& step(v, press(KeyCode::Tab)).1 is None
        }),
{
    crate::app::law_move_by_one(v);
}

} // verus!
