//! The launcher's state: the entries, the search text, the entries that match
//! it, the selected row and whether the notes popup is open.
use vstd::prelude::*;
use crate::config::Entry;
use crate::theme::Theme;
use crate::text::{chars_of, occurs, occurs_in, lowercase, to_lowercase, ascii_lower};
use vstd::utf8::is_ascii_chars;

verus! {

/// The launcher's state.
pub struct App {
    /// All saved entries, in configuration order.
    pub entries: Vec<Entry>,
    /// The search text typed so far.
    pub filter: String,
    /// Indices into `entries` of the entries shown, in order.
    pub filtered: Vec<usize>,
    /// The selected row of the shown list, if any.
    pub selected: Option<usize>,
    pub theme: Theme,
    /// Whether the notes popup is open.
    pub show_notes: bool,
}

/// The launcher's state as plain mathematical values.
#[verifier::ext_equal]
pub struct AppView {
    pub entries: Seq<Entry>,
    pub filter: Seq<char>,
    pub filtered: Seq<usize>,
    pub selected: Option<usize>,
    pub theme: Theme,
    pub show_notes: bool,
}

impl View for App {
    type V = AppView;

    open spec fn view(&self) -> AppView {
        AppView {
            entries: self.entries@,
            filter: self.filter@,
            filtered: self.filtered@,
            selected: self.selected,
            theme: self.theme,
            show_notes: self.show_notes,
        }
    }
}

impl AppView {
    /// The shown indices are valid, strictly increasing positions in `entries`,
    /// and the selection is a row of the list (row 0 when the list is empty).
    pub open spec fn well_formed(self) -> bool {
        &&& forall|i: int| 0 <= i < self.filtered.len() ==> #[trigger] self.filtered[i] < self.entries.len()
        &&& forall|i: int, j: int|
            0 <= i < j < self.filtered.len() ==> #[trigger] self.filtered[i] < #[trigger] self.filtered[j]
        &&& self.selected is Some
        &&& self.filtered.len() == 0 ==> self.selected == Some(0usize)
        &&& self.filtered.len() > 0 ==> self.selected.unwrap() < self.filtered.len()
    }

    /// What moving by `delta` needs so that the row arithmetic neither
    /// overflows nor divides by zero (nothing when the list is empty).
    pub open spec fn can_move(self, delta: i32) -> bool {
        self.filtered.len() > 0 ==> {
            let len = self.filtered.len() as i32;
            let cur = row_or_zero(self.selected) as i32;
            &&& len != 0
            &&& i32::MIN <= cur + delta <= i32::MAX
            &&& !(cur + delta == i32::MIN && len == -1)
        }
    }

    /// The state after the shown list is recomputed from the search text.
    pub open spec fn refiltered(self) -> AppView {
        let filtered = filter_result(self.filter, self.entries);
        AppView {
            entries: self.entries,
            filter: self.filter,
            filtered: filtered,
            selected: Some(clamped_row(self.selected, filtered.len())),
            theme: self.theme,
            show_notes: self.show_notes,
        }
    }

    /// The state after the selection moved by `delta` rows.
    pub open spec fn moved(self, delta: i32) -> AppView {
        if self.filtered.len() == 0 {
            self
        } else {
            AppView {
                entries: self.entries,
                filter: self.filter,
                filtered: self.filtered,
                selected: Some(
                    wrapped_row(
                        row_or_zero(self.selected) as i32 as int,
                        delta as int,
                        self.filtered.len() as i32 as int,
                    ) as usize,
                ),
                theme: self.theme,
                show_notes: self.show_notes,
            }
        }
    }

    /// The same state with another search text (the shown list not yet recomputed).
    pub open spec fn with_filter(self, filter: Seq<char>) -> AppView {
        AppView {
            entries: self.entries,
            filter: filter,
            filtered: self.filtered,
            selected: self.selected,
            theme: self.theme,
            show_notes: self.show_notes,
        }
    }

    /// The same state with the notes popup open or closed.
    pub open spec fn with_notes(self, show: bool) -> AppView {
        AppView {
            entries: self.entries,
            filter: self.filter,
            filtered: self.filtered,
            selected: self.selected,
            theme: self.theme,
            show_notes: show,
        }
    }
}

/// An entry matches a lowercased search text when the text is empty or occurs
/// in the lowercased name, command or notes.
pub open spec fn entry_matches(needle: Seq<char>, e: Entry) -> bool {
    ||| needle.len() == 0
    ||| occurs_in(needle, lowercase(e.name@))
    ||| occurs_in(needle, lowercase(e.command@))
    ||| occurs_in(needle, lowercase(e.notes@))
}

/// The indices below `n` of the entries that match `needle`, in increasing order.
pub open spec fn matching_indices(needle: Seq<char>, entries: Seq<Entry>, n: nat) -> Seq<usize>
    decreases n,
{
    if n == 0 {
        Seq::empty()
    } else {
        let prev = matching_indices(needle, entries, (n - 1) as nat);
        if entry_matches(needle, entries[n - 1]) {
            prev.push((n - 1) as usize)
        } else {
            prev
        }
    }
}

/// The entries shown for a search text: those matching its lowercase form,
/// compared case-insensitively by lowercasing each field too.
pub open spec fn filter_result(filter: Seq<char>, entries: Seq<Entry>) -> Seq<usize> {
    matching_indices(lowercase(filter), entries, entries.len())
}

/// The entries shown for an ASCII search text, where lowercasing the text is
/// plain ASCII lowercasing (`A`-`Z` to `a`-`z`).
pub open spec fn ascii_filter_result(filter: Seq<char>, entries: Seq<Entry>) -> Seq<usize> {
    matching_indices(ascii_lower(filter), entries, entries.len())
}

/// The selected row, reading "no selection" as row 0.
pub open spec fn row_or_zero(sel: Option<usize>) -> int {
    match sel {
        Some(s) => s as int,
        None => 0,
    }
}

/// The selection after the list was refiltered to `len` rows: the old row,
/// pulled back to the last row when it lies past the end (row 0 for an empty list).
pub open spec fn clamped_row(sel: Option<usize>, len: nat) -> usize {
    let last = if len == 0 {
        0
    } else {
        len - 1
    };
    if row_or_zero(sel) <= last {
        row_or_zero(sel) as usize
    } else {
        last as usize
    }
}

/// The row reached from `cur` by `delta` steps in a list of `len` rows,
/// wrapping around at both ends.
pub open spec fn wrapped_row(cur: int, delta: int, len: int) -> int {
    (cur + delta) % len
}

/// The entry under the selection, if the selection points at one.
pub open spec fn entry_at_selection(
    entries: Seq<Entry>,
    filtered: Seq<usize>,
    sel: Option<usize>,
) -> Option<Entry> {
    match sel {
        Some(i) => if i < filtered.len() && filtered[i as int] < entries.len() {
            Some(entries[filtered[i as int] as int])
        } else {
            None
        },
        None => None,
    }
}

impl App {
    /// A launcher over `entries` with an empty search: every entry is shown
    /// and the first row is selected.
    pub fn new(entries: Vec<Entry>, theme: Theme) -> (app: App)
        ensures
            app.entries@ == entries@,
            app.filter@ == Seq::<char>::empty(),
            app.filtered@.len() == entries@.len(),
            forall|i: int| 0 <= i < entries@.len() ==> #[trigger] app.filtered@[i] == i,
            app.selected == Some(0usize),
            app.theme == theme,
            !app.show_notes,
            app@.well_formed(),
    {
        let n = entries.len();
        let mut filtered: Vec<usize> = Vec::new();
        let mut i: usize = 0;
        while i < n
            invariant
                i <= n,
                filtered@.len() == i,
                forall|k: int| 0 <= k < i ==> #[trigger] filtered@[k] == k,
            decreases n - i,
        {
            filtered.push(i);
            i += 1;
        }
        App { entries, filter: String::new(), filtered, selected: Some(0), theme, show_notes: false }
    }

    /// Recomputes the shown entries from the search text, keeping the selected
    /// row when it still exists and moving it to the last row otherwise.
    pub fn apply_filter(&mut self)
        ensures
            final(self)@ == old(self)@.refiltered(),
            is_ascii_chars(old(self).filter@) ==> final(self).filtered@ == ascii_filter_result(
                old(self).filter@,
                old(self).entries@,
            ),
            final(self)@.well_formed(),
    {
        let needle_text = to_lowercase(self.filter.as_str());
        let needle = chars_of(needle_text.as_str());
        let ghost lowered = lowercase(self.filter@);
        let n = self.entries.len();
        let mut filtered: Vec<usize> = Vec::new();
        let mut i: usize = 0;
        while i < n
            invariant
                n == self.entries@.len(),
                i <= n,
                needle@ == lowered,
                filtered@ == matching_indices(lowered, self.entries@, i as nat),
                forall|k: int| 0 <= k < filtered@.len() ==> #[trigger] filtered@[k] < i,
                forall|a: int, b: int|
                    0 <= a < b < filtered@.len() ==> #[trigger] filtered@[a] < #[trigger] filtered@[b],
            decreases n - i,
        {
            if entry_matches_lowered(&needle, &self.entries[i]) {
                filtered.push(i);
            }
            i += 1;
        }
        self.filtered = filtered;
        let len = self.filtered.len();
        let last = if len == 0 {
            0
        } else {
            len - 1
        };
        let cur = match self.selected {
            Some(s) => s,
            None => 0,
        };
        let sel = if cur <= last {
            cur
        } else {
            last
        };
        self.selected = Some(sel);
    }

    /// Moves the selection by `delta` rows, wrapping around at both ends;
    /// an empty list is left as it is.
    pub fn move_selection(&mut self, delta: i32)
        requires
            old(self)@.can_move(delta),
        ensures
            final(self)@ == old(self)@.moved(delta),
    {
        if self.filtered.len() == 0 {
            return ;
        }
        let len = self.filtered.len() as i32;
        let cur = match self.selected {
            Some(s) => s,
            None => 0,
        } as i32;
        let next = (cur + delta).checked_rem_euclid(len).unwrap() as usize;
        self.selected = Some(next);
    }

    /// The entry under the selection, if any.
    pub fn selected_entry(&self) -> (r: Option<&Entry>)
        ensures
            r is Some <==> entry_at_selection(self.entries@, self.filtered@, self.selected) is Some,
            r matches Some(e) ==> entry_at_selection(self.entries@, self.filtered@, self.selected)
                == Some(*e),
    {
        match self.selected {
            Some(i) => {
                if i < self.filtered.len() {
                    let idx = self.filtered[i];
                    if idx < self.entries.len() {
                        Some(&self.entries[idx])
                    } else {
                        None
                    }
                } else {
                    None
                }
            },
            None => None,
        }
    }
}

/// Whether the entry matches a search text that is already lowercased.
fn entry_matches_lowered(needle: &Vec<char>, e: &Entry) -> (b: bool)
    ensures
        b == entry_matches(needle@, *e),
{
    needle.len() == 0 || occurs(needle, &chars_of(to_lowercase(e.name.as_str()).as_str()))
        || occurs(needle, &chars_of(to_lowercase(e.command.as_str()).as_str()))
        || occurs(needle, &chars_of(to_lowercase(e.notes.as_str()).as_str()))
}

} // verus!

verus! {

proof fn lemma_matching_indices(needle: Seq<char>, entries: Seq<Entry>, n: nat)
    requires
        n <= entries.len(),
        n <= usize::MAX,
    ensures
        forall|k: int|
            0 <= k < matching_indices(needle, entries, n).len() ==> #[trigger] matching_indices(
                needle,
                entries,
                n,
            )[k] < n,
        forall|a: int, b: int|
            0 <= a < b < matching_indices(needle, entries, n).len() ==> #[trigger] matching_indices(
                needle,
                entries,
                n,
            )[a] < #[trigger] matching_indices(needle, entries, n)[b],
        forall|i: int|
            0 <= i < n ==> (matching_indices(needle, entries, n).contains(i as usize)
                <==> entry_matches(needle, #[trigger] entries[i])),
    decreases n,
{
    if n > 0 {
        let m = (n - 1) as nat;
        lemma_matching_indices(needle, entries, m);
        let prev = matching_indices(needle, entries, m);
        assert forall|i: int| 0 <= i < n implies (matching_indices(needle, entries, n).contains(
            i as usize,
        ) <==> entry_matches(needle, #[trigger] entries[i])) by {
            if entry_matches(needle, entries[m as int]) {
                let cur = prev.push(m as usize);
                if i < m {
                    if cur.contains(i as usize) {
                        let k = choose|k: int| 0 <= k < cur.len() && cur[k] == i as usize;
                        assert(k < prev.len());
                        assert(prev[k] == i as usize);
                    }
                    if prev.contains(i as usize) {
                        let k = choose|k: int| 0 <= k < prev.len() && prev[k] == i as usize;
                        assert(cur[k] == i as usize);
                    }
                } else {
                    assert(cur[prev.len() as int] == m as usize);
                }
            } else {
                if i == m {
                    if prev.contains(i as usize) {
                        let k = choose|k: int| 0 <= k < prev.len() && prev[k] == i as usize;
                        assert(prev[k] < m);
                    }
                }
            }
        }
    }
}

proof fn lemma_increasing_bounds_len(s: Seq<usize>, n: nat)
    requires
        forall|i: int| 0 <= i < s.len() ==> #[trigger] s[i] < n,
        forall|i: int, j: int| 0 <= i < j < s.len() ==> #[trigger] s[i] < #[trigger] s[j],
    ensures
        s.len() <= n,
    decreases s.len(),
{
    if s.len() > 0 {
        let t = s.drop_last();
        let last = s[s.len() - 1];
        assert forall|i: int| 0 <= i < t.len() implies #[trigger] t[i] < last by {
            assert(s[i] < s[s.len() - 1]);
        }
        lemma_increasing_bounds_len(t, last as nat);
    }
}

/// The search keeps exactly the entries that match the lowercased search
/// text, each once, in their configuration order.
pub proof fn law_filter_keeps_exactly_matches(filter: Seq<char>, entries: Seq<Entry>)
    requires
        entries.len() <= usize::MAX,
    ensures
        forall|k: int|
            0 <= k < filter_result(filter, entries).len() ==> #[trigger] filter_result(filter, entries)[k]
                < entries.len(),
        forall|a: int, b: int|
            0 <= a < b < filter_result(filter, entries).len() ==> #[trigger] filter_result(
                filter,
                entries,
            )[a] < #[trigger] filter_result(filter, entries)[b],
        forall|i: int|
            0 <= i < entries.len() ==> (filter_result(filter, entries).contains(i as usize)
                <==> entry_matches(lowercase(filter), #[trigger] entries[i])),
{
    lemma_matching_indices(lowercase(filter), entries, entries.len());
}

/// An empty (lowercased) search text shows every entry, in order.
pub proof fn law_empty_search_shows_all(filter: Seq<char>, entries: Seq<Entry>)
    requires
        entries.len() <= usize::MAX,
        lowercase(filter).len() == 0,
    ensures
        filter_result(filter, entries).len() == entries.len(),
        forall|i: int| 0 <= i < entries.len() ==> #[trigger] filter_result(filter, entries)[i] == i,
{
    lemma_all_match(lowercase(filter), entries, entries.len());
}

proof fn lemma_all_match(needle: Seq<char>, entries: Seq<Entry>, n: nat)
    requires
        needle.len() == 0,
        n <= entries.len(),
        n <= usize::MAX,
    ensures
        matching_indices(needle, entries, n).len() == n,
        forall|i: int| 0 <= i < n ==> #[trigger] matching_indices(needle, entries, n)[i] == i,
    decreases n,
{
    if n > 0 {
        lemma_all_match(needle, entries, (n - 1) as nat);
    }
}

/// Refiltering always leaves a well-formed state, whatever the state before.
pub proof fn law_refiltered_well_formed(v: AppView)
    requires
        v.entries.len() <= usize::MAX,
    ensures
        v.refiltered().well_formed(),
{
    law_filter_keeps_exactly_matches(v.filter, v.entries);
}

/// In a well-formed state with fewer than 2^31 entries, the selection can
/// move by one row either way.
pub proof fn law_single_steps_allowed(v: AppView)
    requires
        v.well_formed(),
        v.entries.len() <= i32::MAX,
    ensures
        v.can_move(1i32),
        v.can_move(-1i32),
{
    lemma_increasing_bounds_len(v.filtered, v.entries.len());
}

/// A well-formed list is no longer than the entries it indexes.
pub proof fn law_shown_list_fits(v: AppView)
    requires
        v.well_formed(),
    ensures
        v.filtered.len() <= v.entries.len(),
{
    lemma_increasing_bounds_len(v.filtered, v.entries.len());
}

/// Moving the selection keeps a well-formed state well-formed.
pub proof fn law_moved_well_formed(v: AppView, delta: i32)
    requires
        v.well_formed(),
        v.filtered.len() <= i32::MAX,
        v.can_move(delta),
    ensures
        v.moved(delta).well_formed(),
{
}

/// Moving the selection by `delta` rows and then back by `-delta` rows
/// returns to the row where it started.
pub proof fn law_move_round_trip(v: AppView, delta: i32)
    requires
        v.well_formed(),
        v.filtered.len() <= i32::MAX,
        delta > i32::MIN,
        v.can_move(delta),
        v.moved(delta).can_move((-delta) as i32),
    ensures
        v.moved(delta).moved((-delta) as i32) == v,
{
    if v.filtered.len() > 0 {
        let len = v.filtered.len() as int;
        let cur = v.selected.unwrap() as int;
        let mid = (cur + delta) % len;
        vstd::arithmetic::div_mod::lemma_fundamental_div_mod(cur + delta, len);
        let q = (cur + delta) / len;
        assert(mid - delta == len * (-q) + cur) by (nonlinear_arith)
            requires
                cur + delta == len * q + mid,
        ;
        vstd::arithmetic::div_mod::lemma_mod_multiples_vanish(-q, cur, len);
        vstd::arithmetic::div_mod::lemma_small_mod(cur as nat, len as nat);
        assert(v.moved(delta).moved((-delta) as i32).selected == v.selected);
        assert(v.moved(delta).moved((-delta) as i32) =~= v);
    }
}

/// In a well-formed state, some entry is under the selection exactly when
/// the shown list is not empty, and it is the shown entry at the selected row.
pub proof fn law_selection_has_entry(v: AppView)
    requires
        v.well_formed(),
    ensures
        entry_at_selection(v.entries, v.filtered, v.selected) is Some <==> v.filtered.len() > 0,
        v.filtered.len() > 0 ==> entry_at_selection(v.entries, v.filtered, v.selected) == Some(
            v.entries[v.filtered[v.selected.unwrap() as int] as int],
        ),
{
}

/// Refiltering twice gives the same state as refiltering once.
pub proof fn law_refilter_idempotent(v: AppView)
    ensures
        v.refiltered().refiltered() == v.refiltered(),
{
    assert(v.refiltered().refiltered() =~= v.refiltered());
}

/// The search ignores case: two search texts with the same lowercase form
/// show the same entries.
pub proof fn law_search_ignores_case(f1: Seq<char>, f2: Seq<char>, entries: Seq<Entry>)
    requires
        lowercase(f1) == lowercase(f2),
    ensures
        filter_result(f1, entries) == filter_result(f2, entries),
{
}

/// The search ignores ASCII case: two ASCII search texts that differ only
/// in the case of their letters (such as `DOCKER` and `docker`) show the same
/// entries (see the ASCII clause of `App::apply_filter`).
pub proof fn law_search_ignores_ascii_case(f1: Seq<char>, f2: Seq<char>, entries: Seq<Entry>)
    requires
        is_ascii_chars(f1),
        is_ascii_chars(f2),
        ascii_lower(f1) == ascii_lower(f2),
    ensures
        ascii_filter_result(f1, entries) == ascii_filter_result(f2, entries),
{
}

/// An entry is shown exactly when the search text, lowercased, is empty or
/// occurs in the lowercased name, the lowercased command or the lowercased
/// notes: the letter case of the fields never decides.
pub proof fn law_shown_iff_found_ignoring_case(filter: Seq<char>, entries: Seq<Entry>, i: int)
    requires
        entries.len() <= usize::MAX,
        0 <= i < entries.len(),
    ensures
        filter_result(filter, entries).contains(i as usize) <==> {
            ||| lowercase(filter).len() == 0
            ||| occurs_in(lowercase(filter), lowercase(entries[i].name@))
            ||| occurs_in(lowercase(filter), lowercase(entries[i].command@))
            ||| occurs_in(lowercase(filter), lowercase(entries[i].notes@))
        },
{
    law_filter_keeps_exactly_matches(filter, entries);
    assert(filter_result(filter, entries).contains(i as usize) <==> entry_matches(
        lowercase(filter),
        entries[i],
    ));
}

/// An entry whose lowercased name, command or notes contains the lowercased
/// search text somewhere, with any text around it, is shown.
pub proof fn law_found_in_any_field_is_shown(
    filter: Seq<char>,
    entries: Seq<Entry>,
    i: int,
    before: Seq<char>,
    after: Seq<char>,
)
    requires
        entries.len() <= usize::MAX,
        0 <= i < entries.len(),
        lowercase(entries[i].name@) == before + lowercase(filter) + after
            || lowercase(entries[i].command@) == before + lowercase(filter) + after
            || lowercase(entries[i].notes@) == before + lowercase(filter) + after,
    ensures
        filter_result(filter, entries).contains(i as usize),
{
    crate::text::law_occurs_in_any_context(before, lowercase(filter), after);
    law_shown_iff_found_ignoring_case(filter, entries, i);
}

/// After refiltering, the selected row stays where it was when the new list
/// still has that row, moves to the last row when the list got shorter, and
/// is row 0 when the list is empty.
pub proof fn law_refilter_keeps_row(v: AppView)
    ensures
        ({
            let len = filter_result(v.filter, v.entries).len();
            let row = row_or_zero(v.selected);
            &&& row < len ==> v.refiltered().selected == Some(row as usize)
            &&& row >= len && len > 0 ==> v.refiltered().selected == Some((len - 1) as usize)
            &&& len == 0 ==> v.refiltered().selected == Some(0usize)
        }),
{
}

/// Moving by one row goes to the next row, and from the last row to the
/// first; moving back by one goes to the previous row, and from the first
/// row to the last.
pub proof fn law_move_by_one(v: AppView)
    requires
        v.well_formed(),
        v.filtered.len() > 0,
        v.filtered.len() <= i32::MAX,
    ensures
        ({
            let len = v.filtered.len();
            let row = v.selected.unwrap() as int;
            &&& v.moved(1i32).selected == Some(
                (if row + 1 < len {
                    row + 1
                } else {
                    0
                }) as usize,
            )
            &&& v.moved(-1i32).selected == Some(
                (if row > 0 {
                    row - 1
                } else {
                    len - 1
                }) as usize,
            )
        }),
{
    let len = v.filtered.len() as int;
    let row = v.selected.unwrap() as int;
    if row + 1 < len {
        vstd::arithmetic::div_mod::lemma_small_mod((row + 1) as nat, len as nat);
    } else {
        vstd::arithmetic::div_mod::lemma_mod_self_0(len);
    }
    if row > 0 {
        vstd::arithmetic::div_mod::lemma_small_mod((row - 1) as nat, len as nat);
    } else {
        vstd::arithmetic::div_mod::lemma_mod_sub_multiples_vanish(len - 1, len);
        vstd::arithmetic::div_mod::lemma_small_mod((len - 1) as nat, len as nat);
    }
}

} // verus!
