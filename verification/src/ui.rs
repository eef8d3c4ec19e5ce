//! What the screen shows: the rows of the table, the notes popup and the
//! popup's place on the screen.
use vstd::prelude::*;
use vstd::string::StringExecFns;
use crate::app::{App, entry_at_selection, law_selection_has_entry};
use crate::event::{step, press, KeyCode, Action, law_enter_runs_selected};
use crate::text::{flatten_lines, one_line};
use ratatui::layout::{Constraint, Layout};

verus! {

/// A rectangle of terminal cells: left column, top row, width and height.
#[derive(Debug, Clone, Copy, PartialEq, Eq, Structural)]
pub struct Rect {
    pub x: u16,
    pub y: u16,
    pub width: u16,
    pub height: u16,
}

/// The direction in which an area is cut into parts.
#[derive(Debug, Clone, Copy, PartialEq, Eq, Structural)]
pub enum Axis {
    /// Parts stacked top to bottom.
    Vertical,
    /// Parts side by side, left to right.
    Horizontal,
}

/// The parts that ratatui's `Layout::split` cuts `area` into along `axis`,
/// with three percentage constraints.
pub uninterp spec fn percent_split(axis: Axis, area: Rect, first: u16, middle: u16, last: u16) -> Seq<Rect>;

/// Calls ratatui's `Layout::split` on `area` along `axis` with the constraints
/// `Percentage(first)`, `Percentage(middle)`, `Percentage(last)`. The contract
/// claims that the result is `percent_split` of the arguments (the layout
/// solver's answer depends on them alone) and that there is one part per
/// constraint; where the parts lie is left unsaid. Only percentages that sum
/// to at most 100 are admitted: there every constraint can be met and the
/// solver's answer is unique.
#[verifier::external_body]
fn split_percentages(axis: Axis, area: Rect, first: u16, middle: u16, last: u16) -> (parts: Vec<Rect>)
    requires
        first + middle + last <= 100,
    ensures
        parts@ == percent_split(axis, area, first, middle, last),
        parts@.len() == 3,
{
    let direction = match axis {
        Axis::Vertical => ratatui::layout::Direction::Vertical,
        Axis::Horizontal => ratatui::layout::Direction::Horizontal,
    };
    let area = ratatui::layout::Rect { x: area.x, y: area.y, width: area.width, height: area.height };
    let constraints = [Constraint::Percentage(first), Constraint::Percentage(middle), Constraint::Percentage(last)];
    let parts = Layout::default().direction(direction).constraints(constraints).split(area);
    parts.iter().map(|r| Rect { x: r.x, y: r.y, width: r.width, height: r.height }).collect()
}

/// The middle part of `area` cut in three along `axis`, the middle taking
/// `percent` and the sides sharing the rest equally.
pub open spec fn middle_part(axis: Axis, area: Rect, percent: u16) -> Rect {
    let side = ((100 - percent) / 2) as u16;
    percent_split(axis, area, side, percent, side)[1]
}

/// The rectangle centered within `area`, `percent_x` of its width and
/// `percent_y` of its height.
pub open spec fn centered(percent_x: u16, percent_y: u16, area: Rect) -> Rect {
    middle_part(Axis::Horizontal, middle_part(Axis::Vertical, area, percent_y), percent_x)
}

/// A rectangle centered within `area`, `percent_x` / `percent_y` of its size.
pub fn centered_rect(percent_x: u16, percent_y: u16, area: Rect) -> (r: Rect)
    requires
        percent_x <= 100,
        percent_y <= 100,
    ensures
        r == centered(percent_x, percent_y, area),
{
    let side_y = (100 - percent_y) / 2;
    let vertical = split_percentages(Axis::Vertical, area, side_y, percent_y, side_y);
    let side_x = (100 - percent_x) / 2;
    let horizontal = split_percentages(Axis::Horizontal, vertical[1], side_x, percent_x, side_x);
    horizontal[1]
}

/// The table rows: for each shown entry, its name and its command, each on one line.
pub fn table_rows(app: &App) -> (rows: Vec<(String, String)>)
    requires
        forall|i: int| 0 <= i < app.filtered@.len() ==> #[trigger] app.filtered@[i] < app.entries@.len(),
    ensures
        rows@.len() == app.filtered@.len(),
        forall|i: int|
            0 <= i < rows@.len() ==> {
                let e = #[trigger] app.entries@[app.filtered@[i] as int];
                &&& rows@[i].0@ == one_line(e.name@)
                &&& rows@[i].1@ == one_line(e.command@)
            },
{
    let mut rows: Vec<(String, String)> = Vec::new();
    let mut i: usize = 0;
    while i < app.filtered.len()
        invariant
            i <= app.filtered@.len(),
            forall|k: int| 0 <= k < app.filtered@.len() ==> #[trigger] app.filtered@[k] < app.entries@.len(),
            rows@.len() == i,
            forall|k: int|
                0 <= k < i ==> {
                    let e = #[trigger] app.entries@[app.filtered@[k] as int];
                    &&& rows@[k].0@ == one_line(e.name@)
                    &&& rows@[k].1@ == one_line(e.command@)
                },
        decreases app.filtered@.len() - i,
    {
        let e = &app.entries[app.filtered[i]];
        rows.push((flatten_lines(e.name.as_str()), flatten_lines(e.command.as_str())));
        i += 1;
    }
    rows
}

/// The notes shown for an entry: its notes, or `(no notes)` when it has none.
pub open spec fn notes_shown(notes: Seq<char>) -> Seq<char> {
    if notes.len() == 0 {
        "(no notes)"@
    } else {
        notes
    }
}

/// The popup's title and body while the notes popup is open over an entry.
pub open spec fn popup_of(app: App) -> Option<(Seq<char>, Seq<char>)> {
    if app.show_notes {
        match entry_at_selection(app.entries@, app.filtered@, app.selected) {
            Some(e) => Some(
                (" "@ + e.name@ + " "@, notes_shown(e.notes@) + "\n\n(Esc or tab to close)"@),
            ),
            None => None,
        }
    } else {
        None
    }
}

/// The notes popup, when it is open and an entry is selected: its title
/// (the entry's name between spaces) and its body (the notes and a hint).
pub fn notes_popup(app: &App) -> (popup: Option<(String, String)>)
    ensures
        popup is Some <==> popup_of(*app) is Some,
        popup matches Some(p) ==> popup_of(*app) == Some((p.0@, p.1@)),
{
    if !app.show_notes {
        return None;
    }
    match app.selected_entry() {
        Some(e) => {
            let notes = if e.notes.as_str().is_empty() {
                String::from_str("(no notes)")
            } else {
                e.notes.clone()
            };
            let body = notes.concat("\n\n(Esc or tab to close)");
            let title = String::from_str(" ").concat(e.name.as_str()).concat(" ");
            Some((title, body))
        },
        None => None,
    }
}

/// In a well-formed state with the popup open over a non-empty list, the
/// popup shows the entry under the selection, the one Enter runs: its name
/// between spaces as the title, and its notes (or `(no notes)`) with the
/// closing hint as the body.
pub proof fn law_popup_shows_selected_entry(app: App)
    requires
        app@.well_formed(),
        app.show_notes,
        app.filtered@.len() > 0,
    ensures
        ({
            let e = app.entries@[app.filtered@[app.selected.unwrap() as int] as int];
            &&& popup_of(app) == Some(
                (
                    " "@ + e.name@ + " "@,
                    (if e.notes@.len() == 0 {
                        "(no notes)"@
                    } else {
                        e.notes@
                    }) + "\n\n(Esc or tab to close)"@,
                ),
            )
            &&& step(app@.with_notes(false), press(KeyCode::Enter)).1 == Some(Action::Run(e.command))
        }),
{
    law_selection_has_entry(app@);
    law_enter_runs_selected(app@.with_notes(false));
}

/// With the popup closed, or nothing under the selection, there is no popup.
pub proof fn law_no_popup_without_entry(app: App)
    requires
        !app.show_notes || app.filtered@.len() == 0,
        app@.well_formed(),
    ensures
        popup_of(app) is None,
{
    law_selection_has_entry(app@);
}

} // verus!
