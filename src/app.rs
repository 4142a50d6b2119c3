//! The state of one package list view: the items, the fuzzy-filtered view of
//! them, the cursor and the multi-selection, the preview pane with its cache,
//! and the overlays (operation window, help, confirmation, alert).
use crate::filter::{entry_views, filter_entries, filtered};
use crate::text::{chars_of, string_of, string_views, substitute, substitute_item};
use crate::types::{
    dialog_after, down_key, help_key, sat_dec, sat_inc, tab_for_key, tab_key, typed, up_key,
    with_mods, ActionType, Alert, ConfirmDialog, Key, KeyCode, KeyMods, PreviewLayout,
    ViewAction,
};
use crate::update_window::{last_completion, output_lines, SystemUpdateWindow};
use crate::types::UpdateMessage;
use vstd::prelude::*;

verus! {

/// A preview that has to be fetched: the item, and the shell command that
/// prints its preview.
pub struct PreviewJob {
    pub item: String,
    pub command: String,
}

pub struct App {
    pub items: Vec<String>,
    /// The items shown, each with its match score.
    pub filtered_items: Vec<(String, i64)>,
    /// The row under the cursor, an index into `filtered_items`.
    pub selected: Option<usize>,
    pub search_query: String,
    /// The rows marked in multi-select mode, indices into `filtered_items`.
    pub selected_indices: Vec<usize>,
    pub multi: bool,
    /// The preview command; `{}` stands for the item.
    pub preview_cmd: Option<String>,
    pub preview_content: String,
    /// Previews fetched so far, one entry per item.
    pub preview_cache: Vec<(String, String)>,
    /// A preview fetch that the caller has yet to start.
    pub pending_preview: Option<PreviewJob>,
    /// The items whose preview fetch was handed out and has not come back.
    pub in_flight: Vec<String>,
    pub layout: PreviewLayout,
    /// The item whose preview is shown or being fetched.
    pub current_preview_item: Option<String>,
    pub update_window: SystemUpdateWindow,
    pub help_visible: bool,
    pub help_scroll: u16,
    pub confirm_dialog: ConfirmDialog,
    pub action_type: ActionType,
    pub alert: Alert,
}

/// The previews of a cache, by item.
pub open spec fn cache_map(c: Seq<(String, String)>) -> Map<Seq<char>, Seq<char>>
    decreases c.len(),
{
    if c.len() == 0 {
        Map::<Seq<char>, Seq<char>>::empty()
    } else {
        cache_map(c.drop_last()).insert(c.last().0@, c.last().1@)
    }
}

pub open spec fn keys_unique(c: Seq<(String, String)>) -> bool {
    forall|i: int, j: int| 0 <= i < j < c.len() ==> c[i].0@ != c[j].0@
}

pub open spec fn opt_view(o: Option<String>) -> Option<Seq<char>> {
    match o {
        Some(s) => Some(s@),
        None => None,
    }
}

proof fn lemma_cache_has(c: Seq<(String, String)>, j: int)
    requires
        keys_unique(c),
        0 <= j < c.len(),
    ensures
        cache_map(c).contains_key(c[j].0@),
        cache_map(c)[c[j].0@] == c[j].1@,
    decreases c.len(),
{
    if j < c.len() - 1 {
        lemma_cache_has(c.drop_last(), j);
    }
}

proof fn lemma_cache_lacks(c: Seq<(String, String)>, k: Seq<char>)
    requires
        forall|j: int| 0 <= j < c.len() ==> c[j].0@ != k,
    ensures
        !cache_map(c).contains_key(k),
    decreases c.len(),
{
    if c.len() > 0 {
        lemma_cache_lacks(c.drop_last(), k);
    }
}

proof fn lemma_cache_update(c: Seq<(String, String)>, j: int, e: (String, String))
    requires
        keys_unique(c),
        0 <= j < c.len(),
        e.0@ == c[j].0@,
    ensures
        cache_map(c.update(j, e)) == cache_map(c).insert(e.0@, e.1@),
        keys_unique(c.update(j, e)),
    decreases c.len(),
{
    let d = c.update(j, e);
    if j == c.len() - 1 {
        assert(d.drop_last() =~= c.drop_last());
        assert(cache_map(d) =~= cache_map(c).insert(e.0@, e.1@));
    } else {
        lemma_cache_update(c.drop_last(), j, e);
        assert(d.drop_last() =~= c.drop_last().update(j, e));
        assert(cache_map(d) =~= cache_map(c).insert(e.0@, e.1@));
    }
}

/// The item under the cursor, where there is a preview command.
pub open spec fn preview_target(a: App) -> Option<Seq<char>> {
    match (a.preview_cmd, a.selected) {
        (Some(_), Some(i)) => if i < a.filtered_items@.len() {
            Some(a.filtered_items@[i as int].0@)
        } else {
            None
        },
        _ => None,
    }
}

/// `b` agrees with `a` but for the preview pane.
pub open spec fn same_but_preview(a: App, b: App) -> bool {
    &&& b.items == a.items
    &&& b.filtered_items == a.filtered_items
    &&& b.selected == a.selected
    &&& b.search_query == a.search_query
    &&& b.selected_indices == a.selected_indices
    &&& b.multi == a.multi
    &&& b.preview_cmd == a.preview_cmd
    &&& b.layout == a.layout
    &&& b.update_window == a.update_window
    &&& b.help_visible == a.help_visible
    &&& b.help_scroll == a.help_scroll
    &&& b.confirm_dialog == a.confirm_dialog
    &&& b.action_type == a.action_type
    &&& b.alert == a.alert
}

/// A fetch of `item`'s preview is queued or under way.
pub open spec fn awaited(a: App, item: Seq<char>) -> bool {
    string_views(a.in_flight@).contains(item) || (a.pending_preview is Some
        && a.pending_preview->0.item@ == item)
}

/// What asking for the preview of the item under the cursor does: a cached
/// preview is shown at once; the item already shown as loading is left
/// alone; an item whose fetch is queued or under way is shown as loading
/// without a second fetch; any other item is shown as loading and a fetch is
/// queued for it, in place of a queued one not yet started.
pub open spec fn preview_step(a: App, b: App) -> bool {
    match preview_target(a) {
        None => b == a,
        Some(item) => if cache_map(a.preview_cache@).contains_key(item) {
            &&& same_but_preview(a, b)
            &&& b.preview_cache == a.preview_cache
            &&& b.preview_content@ == cache_map(a.preview_cache@)[item]
            &&& opt_view(b.current_preview_item) == Some(item)
            &&& b.pending_preview == a.pending_preview
            &&& b.in_flight == a.in_flight
        } else if opt_view(a.current_preview_item) == Some(item) {
            b == a
        } else {
            &&& same_but_preview(a, b)
            &&& b.preview_cache == a.preview_cache
            &&& b.preview_content@ == "Loading preview..."@
            &&& opt_view(b.current_preview_item) == Some(item)
            &&& b.in_flight == a.in_flight
            &&& if awaited(a, item) {
                b.pending_preview == a.pending_preview
            } else {
                &&& b.pending_preview is Some
                &&& b.pending_preview->0.item@ == item
                &&& b.pending_preview->0.command@ == substitute(a.preview_cmd->0@, item)
            }
        },
    }
}

/// A view over `items` as it starts: unfiltered, nothing marked, the cursor
/// on the first row, no overlay, an empty cache and nothing fetched, the
/// preview of the first row asked for.
pub open spec fn fresh(
    r: App,
    items: Vec<String>,
    multi: bool,
    preview_cmd: Option<String>,
    action_type: ActionType,
) -> bool {
    &&& r.wf()
    &&& r.consistent()
    &&& r.items == items
    &&& r.search_query@.len() == 0
    &&& r.selected_indices@.len() == 0
    &&& r.multi == multi
    &&& r.preview_cmd == preview_cmd
    &&& r.preview_cache@.len() == 0
    &&& r.in_flight@.len() == 0
    &&& r.action_type == action_type
    &&& r.layout == PreviewLayout::Vertical
    &&& !r.update_window.active
    &&& !r.help_visible
    &&& r.help_scroll == 0
    &&& !r.confirm_dialog.active
    &&& !r.confirm_dialog.confirmed
    &&& !r.alert.active
    &&& r.selected == (if items@.len() > 0 {
        Some(0usize)
    } else {
        None
    })
    &&& match preview_target(r) {
        Some(t) => {
            &&& r.pending_preview is Some
            &&& r.pending_preview->0.item@ == t
            &&& r.pending_preview->0.command@ == substitute(preview_cmd->0@, t)
            &&& opt_view(r.current_preview_item) == Some(t)
            &&& r.preview_content@ == "Loading preview..."@
        },
        None => {
            &&& r.pending_preview is None
            &&& r.current_preview_item is None
            &&& r.preview_content@.len() == 0
        },
    }
}

/// No preview fetch is under way twice, and none is queued for an item
/// whose fetch is under way.
pub open spec fn fetches_distinct(a: App) -> bool {
    &&& string_views(a.in_flight@).no_duplicates()
    &&& !(a.pending_preview is Some && string_views(a.in_flight@).contains(
        a.pending_preview->0.item@,
    ))
}

proof fn lemma_drop_item(s: Seq<Seq<char>>, x: Seq<char>)
    ensures
        forall|y: Seq<char>| drop_item(s, x).contains(y) ==> s.contains(y) && y != x,
        s.no_duplicates() ==> drop_item(s, x).no_duplicates(),
    decreases s.len(),
{
    if s.len() > 0 {
        let d = s.drop_last();
        lemma_drop_item(d, x);
        let r = drop_item(d, x);
        assert forall|y: Seq<char>| drop_item(s, x).contains(y) implies s.contains(y) && y != x by {
            let t = drop_item(s, x);
            let k = choose|k: int| 0 <= k < t.len() && t[k] == y;
            if s.last() != x && k == r.len() {
                assert(s[s.len() - 1] == y);
            } else {
                assert(r[k] == y);
                assert(r.contains(y));
                assert(d.contains(y));
                let m = choose|m: int| 0 <= m < d.len() && d[m] == y;
                assert(s[m] == y);
            }
        }
        if s.no_duplicates() {
            assert(d.no_duplicates()) by {
                assert forall|i: int, j: int| 0 <= i < d.len() && 0 <= j < d.len() && i != j
                    implies d[i] != d[j] by {
                    assert(d[i] == s[i] && d[j] == s[j]);
                }
            }
            if s.last() != x {
                assert(!r.contains(s.last())) by {
                    if r.contains(s.last()) {
                        assert(d.contains(s.last()));
                        let m = choose|m: int| 0 <= m < d.len() && d[m] == s.last();
                        assert(s[m] == s[s.len() - 1]);
                    }
                }
                assert(r.push(s.last()).no_duplicates()) by {
                    assert forall|i: int, j: int|
                        0 <= i < r.len() + 1 && 0 <= j < r.len() + 1 && i != j implies r.push(
                        s.last(),
                    )[i] != r.push(s.last())[j] by {
                        if i == r.len() {
                            assert(r[j] == r.push(s.last())[j]);
                        } else if j == r.len() {
                            assert(r[i] == r.push(s.last())[i]);
                        }
                    }
                }
            }
        }
    }
}

/// `s` without `x`.
pub open spec fn drop_item(s: Seq<Seq<char>>, x: Seq<char>) -> Seq<Seq<char>>
    decreases s.len(),
{
    if s.len() == 0 {
        s
    } else if s.last() == x {
        drop_item(s.drop_last(), x)
    } else {
        drop_item(s.drop_last(), x).push(s.last())
    }
}

/// The fetches still under way after the previews `rs` came back.
pub open spec fn flight_after(s: Seq<Seq<char>>, rs: Seq<(String, String)>) -> Seq<Seq<char>>
    decreases rs.len(),
{
    if rs.len() == 0 {
        s
    } else {
        drop_item(flight_after(s, rs.drop_last()), rs.last().0@)
    }
}

/// The cursor row after moving down, wrapping from the last row to the first.
pub open spec fn next_index(sel: Option<usize>, len: nat) -> usize {
    match sel {
        Some(i) => if i >= len - 1 {
            0
        } else {
            (i + 1) as usize
        },
        None => 0,
    }
}

/// The cursor row after moving up, wrapping from the first row to the last.
pub open spec fn previous_index(sel: Option<usize>, len: nat) -> usize {
    match sel {
        Some(i) => if i == 0 {
            (len - 1) as usize
        } else {
            (i - 1) as usize
        },
        None => 0,
    }
}

/// `a` with the cursor on row `sel`.
pub open spec fn with_cursor(a: App, sel: Option<usize>) -> App {
    App { selected: sel, ..a }
}

/// Moving the cursor down from `a` gives `b`.
pub open spec fn next_step(a: App, b: App) -> bool {
    if a.filtered_items@.len() == 0 {
        b == a
    } else {
        preview_step(with_cursor(a, Some(next_index(a.selected, a.filtered_items@.len()))), b)
    }
}


/// Moving the cursor up from `a` gives `b`.
pub open spec fn previous_step(a: App, b: App) -> bool {
    if a.filtered_items@.len() == 0 {
        b == a
    } else {
        preview_step(with_cursor(a, Some(previous_index(a.selected, a.filtered_items@.len()))), b)
    }
}

/// `v` without any occurrence of `x`.
pub open spec fn without(v: Seq<usize>, x: usize) -> Seq<usize>
    decreases v.len(),
{
    if v.len() == 0 {
        v
    } else if v.last() == x {
        without(v.drop_last(), x)
    } else {
        without(v.drop_last(), x).push(v.last())
    }
}

/// The marks after toggling row `x`: removed where it was marked, else added.
pub open spec fn toggled(v: Seq<usize>, x: usize) -> Seq<usize> {
    if v.contains(x) {
        without(v, x)
    } else {
        v.push(x)
    }
}

/// `a` with the marks `marks`.
pub open spec fn with_marks(a: App, marks: Vec<usize>) -> App {
    App { selected_indices: marks, ..a }
}

/// `a` showing the rows `rows`, with the cursor on the first of them.
pub open spec fn with_rows(a: App, rows: Vec<(String, i64)>) -> App {
    App {
        filtered_items: rows,
        selected: if rows@.len() > 0 {
            Some(0usize)
        } else {
            None
        },
        ..a
    }
}

/// The cache after taking in the previews `rs` in order.
pub open spec fn cache_after(m: Map<Seq<char>, Seq<char>>, rs: Seq<(String, String)>) -> Map<
    Seq<char>,
    Seq<char>,
>
    decreases rs.len(),
{
    if rs.len() == 0 {
        m
    } else {
        cache_after(m, rs.drop_last()).insert(rs.last().0@, rs.last().1@)
    }
}

/// The preview shown after taking in `rs`: the last of them for the item
/// `cur`, or `shown` where none is for it.
pub open spec fn shown_after(cur: Option<Seq<char>>, shown: Seq<char>, rs: Seq<(String, String)>) -> Seq<char>
    decreases rs.len(),
{
    if rs.len() == 0 {
        shown
    } else if cur == Some(rs.last().0@) {
        rs.last().1@
    } else {
        shown_after(cur, shown, rs.drop_last())
    }
}

/// Marking the row under the cursor from `a` gives `b` (see `toggle_select`).
pub open spec fn toggle_step(a: App, b: App) -> bool {
    if !a.multi || a.selected is None {
        b == a
    } else {
        &&& b.selected_indices@ == toggled(a.selected_indices@, a.selected->0)
        &&& next_step(with_marks(a, b.selected_indices), b)
    }
}

/// Refiltering `a` for its query gives `b` (see `filter_items`).
pub open spec fn filter_step(a: App, b: App) -> bool {
    &&& entry_views(b.filtered_items@) == filtered(string_views(a.items@), a.search_query@)
    &&& preview_step(with_rows(a, b.filtered_items), b)
}

/// The operation window `w` closed into `v`, by the user or not.
pub open spec fn window_closed(w: SystemUpdateWindow, v: SystemUpdateWindow, by_user: bool) -> bool {
    &&& v.was_successful == (w.completed && !w.has_error)
    &&& !v.active
    &&& v.output@.len() == 0
    &&& !v.completed
    &&& !v.has_error
    &&& v.just_closed
    &&& v.cancelled_by_user == by_user
    &&& v.operation_type == w.operation_type
    &&& v.title == w.title
}

/// A key while the operation window is open: Alt+X dismisses it once the
/// operation has ended; every other key is ignored.
pub open spec fn window_key_step(a: App, k: Key, b: App) -> bool {
    if with_mods(k, 'x', KeyMods::Alt) && (a.update_window.has_error || a.update_window.completed) {
        &&& b == App { update_window: b.update_window, ..a }
        &&& window_closed(a.update_window, b.update_window, true)
    } else {
        b == a
    }
}

/// A key while the help is shown: `?` or Esc hide it, Down/`j` and Up/`k`
/// scroll it.
pub open spec fn help_key_step(a: App, k: Key, b: App) -> bool {
    if help_key(k) || k.code == KeyCode::Esc {
        b == App { help_visible: false, help_scroll: 0, ..a }
    } else if down_key(k) {
        b == App { help_scroll: sat_inc(a.help_scroll), ..a }
    } else if up_key(k) {
        b == App { help_scroll: sat_dec(a.help_scroll), ..a }
    } else {
        b == a
    }
}

/// Some overlay takes the keys of `a`.
pub open spec fn modal_open(a: App) -> bool {
    a.update_window.active || a.confirm_dialog.active || a.help_visible || a.alert.active
}

/// A key goes to the first open overlay, in this order: the operation
/// window, the confirmation dialog, the help, the alert (any key closes it).
pub open spec fn modal_step(a: App, k: Key, b: App) -> bool {
    if a.update_window.active {
        window_key_step(a, k, b)
    } else if a.confirm_dialog.active {
        b == App { confirm_dialog: dialog_after(a.confirm_dialog, k), ..a }
    } else if a.help_visible {
        help_key_step(a, k, b)
    } else if a.alert.active {
        &&& b == App { alert: b.alert, ..a }
        &&& !b.alert.active
        &&& b.alert.message@.len() == 0
        &&& b.alert.alert_type == a.alert.alert_type
    } else {
        b == a
    }
}

/// The query after Backspace.
pub open spec fn erased(q: Seq<char>) -> Seq<char> {
    if q.len() == 0 {
        q
    } else {
        q.drop_last()
    }
}

/// A key on the list itself: Enter opens the confirmation for the chosen
/// items, Down/`j` and Up/`k` move, Tab marks, Alt+O and Alt+V set the
/// layout, a typed character extends the query and Backspace shortens it.
pub open spec fn list_key_step(a: App, k: Key, b: App) -> bool {
    if k.code == KeyCode::Enter {
        if chosen(a).len() > 0 {
            &&& b == App { confirm_dialog: b.confirm_dialog, ..a }
            &&& b.confirm_dialog.active
            &&& !b.confirm_dialog.confirmed
            &&& b.confirm_dialog.scroll == 0
            &&& b.confirm_dialog.action_type == a.action_type
            &&& string_views(b.confirm_dialog.packages@) == chosen(a)
        } else {
            b == a
        }
    } else if down_key(k) {
        next_step(a, b)
    } else if up_key(k) {
        previous_step(a, b)
    } else if k.code == KeyCode::Tab {
        toggle_step(a, b)
    } else if with_mods(k, 'o', KeyMods::Alt) {
        b == App { layout: PreviewLayout::Horizontal, ..a }
    } else if with_mods(k, 'v', KeyMods::Alt) {
        b == App { layout: PreviewLayout::Vertical, ..a }
    } else if k.code is Char && (k.mods == KeyMods::Plain || k.mods == KeyMods::Shift) {
        &&& b.search_query@ == a.search_query@.push(k.code->Char_0)
        &&& filter_step(App { search_query: b.search_query, ..a }, b)
    } else if k.code == KeyCode::Backspace {
        &&& b.search_query@ == erased(a.search_query@)
        &&& filter_step(App { search_query: b.search_query, ..a }, b)
    } else {
        b == a
    }
}

/// A key on a package view of the main menu, once no overlay took it:
/// `1` to `4` switch tabs; Esc clears the query, or goes home when it is
/// empty; Ctrl+R reloads; other keys go to the list.
pub open spec fn view_key_step(a: App, k: Key, b: App, r: ViewAction) -> bool {
    match tab_key(k) {
        Some(v) => b == a && r == ViewAction::SwitchView(v),
        None => if k.code == KeyCode::Esc {
            if a.search_query@.len() == 0 {
                b == a && r == ViewAction::SwitchView(crate::types::ViewType::Home)
            } else {
                &&& r == ViewAction::Nothing
                &&& b.search_query@.len() == 0
                &&& filter_step(App { search_query: b.search_query, ..a }, b)
            }
        } else if with_mods(k, 'r', KeyMods::Control) {
            b == a && r == ViewAction::RefreshView
        } else {
            r == ViewAction::Nothing && list_key_step(a, k, b)
        },
    }
}

/// What one pass of the main loop did to the operation window: whether it
/// closed by itself after a success, and whether the screen needs a full
/// redraw because the window went away.
pub struct TickOutcome {
    pub auto_closed: bool,
    pub redraw: bool,
}

/// What the stand-alone selector does after a key.
pub enum SelectorStep {
    /// Keep running.
    Continue,
    /// Leave with these items (none when the user cancelled).
    Finish(Vec<String>),
    /// Run a full system upgrade (Ctrl+U).
    StartSystemUpdate,
}

/// A key in the stand-alone selector. The operation window, the
/// confirmation dialog and the help take keys in that order; confirming the
/// dialog ends the selection with its packages. Otherwise `?` shows the help,
/// Esc ends with nothing, Ctrl+U asks for a system upgrade, and other keys go
/// to the list.
pub open spec fn selector_key_step(a: App, k: Key, b: App, r: SelectorStep) -> bool {
    if a.update_window.active {
        window_key_step(a, k, b) && r is Continue
    } else if a.confirm_dialog.active {
        &&& b == App { confirm_dialog: dialog_after(a.confirm_dialog, k), ..a }
        &&& if crate::types::confirm_key(k) {
            r is Finish && string_views(r->Finish_0@) == string_views(a.confirm_dialog.packages@)
        } else {
            r is Continue
        }
    } else if a.help_visible {
        help_key_step(a, k, b) && r is Continue
    } else if help_key(k) {
        b == App { help_visible: true, help_scroll: 0, ..a } && r is Continue
    } else if k.code == KeyCode::Esc {
        b == a && r is Finish && r->Finish_0@.len() == 0
    } else if with_mods(k, 'u', KeyMods::Control) {
        b == a && r is StartSystemUpdate
    } else {
        list_key_step(a, k, b) && r is Continue
    }
}

/// The items at the rows `idx` of `rows`, skipping rows out of range.
pub open spec fn items_at(rows: Seq<(String, i64)>, idx: Seq<usize>) -> Seq<Seq<char>>
    decreases idx.len(),
{
    if idx.len() == 0 {
        Seq::<Seq<char>>::empty()
    } else {
        let r = items_at(rows, idx.drop_last());
        if idx.last() < rows.len() {
            r.push(rows[idx.last() as int].0@)
        } else {
            r
        }
    }
}

/// What a confirmation hands on: the marked rows in multi-select mode, else
/// the row under the cursor.
pub open spec fn chosen(a: App) -> Seq<Seq<char>> {
    if a.multi {
        items_at(a.filtered_items@, a.selected_indices@)
    } else {
        match a.selected {
            Some(i) => if i < a.filtered_items@.len() {
                seq![a.filtered_items@[i as int].0@]
            } else {
                Seq::<Seq<char>>::empty()
            },
            None => Seq::<Seq<char>>::empty(),
        }
    }
}

impl App {
    /// The cursor stays on a row, and the cache holds one preview per item.
    pub open spec fn wf(&self) -> bool {
        &&& match self.selected {
            Some(i) => i < self.filtered_items@.len(),
            None => self.filtered_items@.len() == 0,
        }
        &&& keys_unique(self.preview_cache@)
        &&& fetches_distinct(*self)
    }

    /// The list shows what the query selects from the items.
    pub open spec fn consistent(&self) -> bool {
        entry_views(self.filtered_items@) == filtered(string_views(self.items@), self.search_query@)
    }

    /// A view of `items`, unfiltered, with the cursor on the first one and
    /// the preview of that one asked for.
    pub fn new(items: Vec<String>, multi: bool, preview_cmd: Option<String>, action_type: ActionType) -> (r: Self)
        ensures
            fresh(r, items, multi, preview_cmd, action_type),
    {
        let query = String::new();
        let filtered_items = filter_entries(&items, query.as_str());
        proof {
            assert(entry_views(filtered_items@).len() == filtered_items@.len());
            assert(filtered_items@.len() == items@.len());
        }
        let selected = if filtered_items.len() > 0 {
            Some(0usize)
        } else {
            None
        };
        let mut app = App {
            items,
            filtered_items,
            selected,
            search_query: query,
            selected_indices: Vec::new(),
            multi,
            preview_cmd,
            preview_content: String::new(),
            preview_cache: Vec::new(),
            pending_preview: None,
            in_flight: Vec::new(),
            layout: PreviewLayout::Vertical,
            current_preview_item: None,
            update_window: SystemUpdateWindow::new(),
            help_visible: false,
            help_scroll: 0,
            confirm_dialog: ConfirmDialog::new(),
            action_type,
            alert: Alert::new(),
        };
        app.request_preview();
        app
    }

    /// The index of the cache entry for `item`, if there is one.
    fn cache_find(&self, item: &String) -> (r: Option<usize>)
        ensures
            match r {
                Some(j) => j < self.preview_cache@.len() && self.preview_cache@[j as int].0@ == item@,
                None => forall|j: int|
                    0 <= j < self.preview_cache@.len() ==> self.preview_cache@[j].0@ != item@,
            },
    {
        let mut j: usize = 0;
        while j < self.preview_cache.len()
            invariant
                j <= self.preview_cache@.len(),
                forall|k: int| 0 <= k < j ==> self.preview_cache@[k].0@ != item@,
            decreases self.preview_cache@.len() - j,
        {
            if self.preview_cache[j].0 == *item {
                return Some(j);
            }
            j += 1;
        }
        None
    }

    /// Asks for the preview of the item under the cursor (see `preview_step`).
    pub fn request_preview(&mut self)
        requires
            keys_unique(old(self).preview_cache@),
        ensures
            old(self).wf() ==> final(self).wf(),
            old(self).consistent() ==> final(self).consistent(),
            preview_step(*old(self), *final(self)),
    {
        let cmd = match &self.preview_cmd {
            Some(c) => c.clone(),
            None => {
                return;
            },
        };
        let sel = match self.selected {
            Some(i) => i,
            None => {
                return;
            },
        };
        if sel >= self.filtered_items.len() {
            return;
        }
        let item = self.filtered_items[sel].0.clone();
        match self.cache_find(&item) {
            Some(j) => {
                proof {
                    lemma_cache_has_when_wf(self.preview_cache@, j as int);
                }
                self.preview_content = self.preview_cache[j].1.clone();
                self.current_preview_item = Some(item);
                return;
            },
            None => {
                proof {
                    lemma_cache_lacks(self.preview_cache@, item@);
                }
            },
        }
        let loading = match &self.current_preview_item {
            Some(cur) => *cur == item,
            None => false,
        };
        if loading {
            return;
        }
        let queued = match &self.pending_preview {
            Some(job) => job.item == item,
            None => false,
        };
        let waiting = queued || contains_string(&self.in_flight, &item);
        self.current_preview_item = Some(item.clone());
        self.preview_content = String::from_str("Loading preview...");
        if !waiting {
            let command = substitute_item(cmd.as_str(), item.as_str());
            self.pending_preview = Some(PreviewJob { item, command });
        }
    }

    /// Moves the cursor one row down, from the last row to the first.
    pub fn next(&mut self)
        requires
            keys_unique(old(self).preview_cache@),
        ensures
            old(self).wf() ==> final(self).wf(),
            old(self).consistent() ==> final(self).consistent(),
            next_step(*old(self), *final(self)),
    {
        let len = self.filtered_items.len();
        if len == 0 {
            return;
        }
        let i = match self.selected {
            Some(i) => if i >= len - 1 {
                0
            } else {
                i + 1
            },
            None => 0,
        };
        self.selected = Some(i);
        proof {
            assert(*self == with_cursor(*old(self), Some(i)));
        }
        self.request_preview();
    }

    /// Moves the cursor one row up, from the first row to the last.
    pub fn previous(&mut self)
        requires
            keys_unique(old(self).preview_cache@),
        ensures
            old(self).wf() ==> final(self).wf(),
            old(self).consistent() ==> final(self).consistent(),
            previous_step(*old(self), *final(self)),
    {
        let len = self.filtered_items.len();
        if len == 0 {
            return;
        }
        let i = match self.selected {
            Some(i) => if i == 0 {
                len - 1
            } else {
                i - 1
            },
            None => 0,
        };
        self.selected = Some(i);
        proof {
            assert(*self == with_cursor(*old(self), Some(i)));
        }
        self.request_preview();
    }

    /// In multi-select mode, marks or unmarks the row under the cursor, then
    /// moves the cursor down.
    pub fn toggle_select(&mut self)
        requires
            keys_unique(old(self).preview_cache@),
        ensures
            old(self).wf() ==> final(self).wf(),
            old(self).consistent() ==> final(self).consistent(),
            toggle_step(*old(self), *final(self)),
    {
        if !self.multi {
            return;
        }
        let sel = match self.selected {
            Some(s) => s,
            None => {
                return;
            },
        };
        let n = self.selected_indices.len();
        let mut found = false;
        let mut rest: Vec<usize> = Vec::new();
        let mut i: usize = 0;
        while i < n
            invariant
                n == self.selected_indices@.len(),
                i <= n,
                found == self.selected_indices@.subrange(0, i as int).contains(sel),
                rest@ == without(self.selected_indices@.subrange(0, i as int), sel),
            decreases n - i,
        {
            let x = self.selected_indices[i];
            proof {
                let t = self.selected_indices@.subrange(0, i as int + 1);
                assert(t.drop_last() =~= self.selected_indices@.subrange(0, i as int));
                assert(t.last() == x);
                if x == sel {
                    assert(t[i as int] == sel);
                } else if !found {
                    assert(!t.contains(sel)) by {
                        assert forall|k: int| 0 <= k < t.len() implies t[k] != sel by {
                            if k < i {
                                assert(t[k] == self.selected_indices@.subrange(0, i as int)[k]);
                            }
                        }
                    }
                } else {
                    let k = choose|k: int|
                        0 <= k < i && self.selected_indices@.subrange(0, i as int)[k] == sel;
                    assert(t[k] == sel);
                }
            }
            if x == sel {
                found = true;
            } else {
                rest.push(x);
            }
            i += 1;
        }
        proof {
            assert(self.selected_indices@.subrange(0, i as int) =~= self.selected_indices@);
        }
        if found {
            self.selected_indices = rest;
        } else {
            self.selected_indices.push(sel);
        }
        proof {
            assert(*self == with_marks(*old(self), self.selected_indices));
        }
        self.next();
    }

    /// The items that a confirmation would hand on (see `chosen`).
    pub fn get_selected_items(&self) -> (r: Vec<String>)
        ensures
            string_views(r@) == chosen(*self),
    {
        if self.multi {
            let mut out: Vec<String> = Vec::new();
            let mut i: usize = 0;
            while i < self.selected_indices.len()
                invariant
                    i <= self.selected_indices@.len(),
                    string_views(out@) == items_at(
                        self.filtered_items@,
                        self.selected_indices@.subrange(0, i as int),
                    ),
                decreases self.selected_indices@.len() - i,
            {
                let k = self.selected_indices[i];
                proof {
                    let t = self.selected_indices@.subrange(0, i as int + 1);
                    assert(t.drop_last() =~= self.selected_indices@.subrange(0, i as int));
                }
                if k < self.filtered_items.len() {
                    let item = self.filtered_items[k].0.clone();
                    proof {
                        assert(string_views(out@.push(item)) =~= string_views(out@).push(item@));
                    }
                    out.push(item);
                }
                i += 1;
            }
            proof {
                assert(self.selected_indices@.subrange(0, i as int) =~= self.selected_indices@);
            }
            out
        } else {
            match self.selected {
                Some(i) => if i < self.filtered_items.len() {
                    let r = vec![self.filtered_items[i].0.clone()];
                    proof {
                        assert(string_views(r@) =~= seq![self.filtered_items@[i as int].0@]);
                    }
                    r
                } else {
                    let r: Vec<String> = Vec::new();
                    proof {
                        assert(string_views(r@) =~= Seq::<Seq<char>>::empty());
                    }
                    r
                },
                None => {
                    let r: Vec<String> = Vec::new();
                    proof {
                        assert(string_views(r@) =~= Seq::<Seq<char>>::empty());
                    }
                    r
                },
            }
        }
    }

    /// Recomputes the rows for the current query, puts the cursor on the
    /// first row and asks for its preview. The marks are kept as they are:
    /// they are row numbers, and may now point at other items.
    pub fn filter_items(&mut self)
        requires
            keys_unique(old(self).preview_cache@),
        ensures
            entry_views(final(self).filtered_items@) == filtered(
                string_views(old(self).items@),
                old(self).search_query@,
            ),
            filter_step(*old(self), *final(self)),
            fetches_distinct(*old(self)) ==> final(self).wf(),
            final(self).consistent(),
    {
        let rows = filter_entries(&self.items, self.search_query.as_str());
        self.selected = if rows.len() > 0 {
            Some(0usize)
        } else {
            None
        };
        self.filtered_items = rows;
        proof {
            assert(*self == with_rows(*old(self), self.filtered_items));
        }
        self.request_preview();
    }

    /// Takes in a fetched preview: it is cached, and shown where its item is
    /// the one the pane is for.
    pub fn receive_preview(&mut self, item: String, content: String)
        requires
            keys_unique(old(self).preview_cache@),
        ensures
            old(self).wf() ==> final(self).wf(),
            old(self).consistent() ==> final(self).consistent(),
            keys_unique(final(self).preview_cache@),
            cache_map(final(self).preview_cache@) == cache_map(old(self).preview_cache@).insert(
                item@,
                content@,
            ),
            final(self).preview_content@ == (if opt_view(old(self).current_preview_item) == Some(
                item@,
            ) {
                content@
            } else {
                old(self).preview_content@
            }),
            same_but_preview(*old(self), *final(self)),
            final(self).current_preview_item == old(self).current_preview_item,
            final(self).pending_preview == old(self).pending_preview,
            string_views(final(self).in_flight@) == drop_item(
                string_views(old(self).in_flight@),
                item@,
            ),
    {
        self.in_flight = without_string(&self.in_flight, &item);
        proof {
            lemma_drop_item(string_views(old(self).in_flight@), item@);
        }
        let is_current = match &self.current_preview_item {
            Some(cur) => *cur == item,
            None => false,
        };
        if is_current {
            self.preview_content = content.clone();
        }
        match self.cache_find(&item) {
            Some(j) => {
                let ghost c = self.preview_cache@;
                proof {
                    lemma_cache_update(c, j as int, (item, content));
                }
                let _ = self.preview_cache.remove(j);
                self.preview_cache.insert(j, (item, content));
                proof {
                    assert(self.preview_cache@ =~= c.update(j as int, (item, content)));
                }
            },
            None => {
                let ghost c = self.preview_cache@;
                self.preview_cache.push((item, content));
                proof {
                    assert(self.preview_cache@.drop_last() =~= c);
                }
            },
        }
    }

    /// Takes in the previews fetched since the last call, in order.
    pub fn check_preview_updates(&mut self, results: Vec<(String, String)>)
        requires
            keys_unique(old(self).preview_cache@),
        ensures
            old(self).wf() ==> final(self).wf(),
            old(self).consistent() ==> final(self).consistent(),
            keys_unique(final(self).preview_cache@),
            cache_map(final(self).preview_cache@) == cache_after(
                cache_map(old(self).preview_cache@),
                results@,
            ),
            final(self).preview_content@ == shown_after(
                opt_view(old(self).current_preview_item),
                old(self).preview_content@,
                results@,
            ),
            same_but_preview(*old(self), *final(self)),
            final(self).current_preview_item == old(self).current_preview_item,
            final(self).pending_preview == old(self).pending_preview,
            string_views(final(self).in_flight@) == flight_after(
                string_views(old(self).in_flight@),
                results@,
            ),
    {
        let mut i: usize = 0;
        while i < results.len()
            invariant
                i <= results@.len(),
                keys_unique(self.preview_cache@),
                cache_map(self.preview_cache@) == cache_after(
                    cache_map(old(self).preview_cache@),
                    results@.subrange(0, i as int),
                ),
                self.preview_content@ == shown_after(
                    opt_view(old(self).current_preview_item),
                    old(self).preview_content@,
                    results@.subrange(0, i as int),
                ),
                same_but_preview(*old(self), *self),
                self.current_preview_item == old(self).current_preview_item,
                self.pending_preview == old(self).pending_preview,
                string_views(self.in_flight@) == flight_after(
                    string_views(old(self).in_flight@),
                    results@.subrange(0, i as int),
                ),
                old(self).wf() ==> self.wf(),
            decreases results@.len() - i,
        {
            proof {
                let t = results@.subrange(0, i as int + 1);
                assert(t.drop_last() =~= results@.subrange(0, i as int));
            }
            let item = results[i].0.clone();
            let content = results[i].1.clone();
            self.receive_preview(item, content);
            i += 1;
        }
        proof {
            assert(results@.subrange(0, i as int) =~= results@);
        }
    }

    /// Handles a key on the operation window (see `window_key_step`).
    fn window_key(&mut self, key: Key)
        ensures
            window_key_step(*old(self), key, *final(self)),
    {
        if key.is_with('x', KeyMods::Alt) && (self.update_window.has_error
            || self.update_window.completed) {
            self.update_window.close(true);
        }
    }

    /// Handles a key on the help (see `help_key_step`).
    fn help_key(&mut self, key: Key)
        ensures
            help_key_step(*old(self), key, *final(self)),
    {
        if key.is_typed('?') || key.code == KeyCode::Esc {
            self.help_visible = false;
            self.help_scroll = 0;
        } else if key.is_down() {
            self.help_scroll = self.help_scroll.saturating_add(1);
        } else if key.is_up() {
            self.help_scroll = self.help_scroll.saturating_sub(1);
        }
    }

    /// Gives the key to the open overlay, if any (see `modal_step`); tells
    /// whether one took it.
    pub fn handle_modal_key(&mut self, key: Key) -> (r: bool)
        ensures
            old(self).wf() ==> final(self).wf(),
            old(self).consistent() ==> final(self).consistent(),
            r == modal_open(*old(self)),
            modal_step(*old(self), key, *final(self)),
    {
        if self.update_window.active {
            self.window_key(key);
            true
        } else if self.confirm_dialog.active {
            self.confirm_dialog.handle_key(key);
            true
        } else if self.help_visible {
            self.help_key(key);
            true
        } else if self.alert.active {
            self.alert.close();
            true
        } else {
            false
        }
    }

    /// Replaces the query by `query` and refilters.
    fn set_query(&mut self, query: String)
        requires
            keys_unique(old(self).preview_cache@),
        ensures
            final(self).search_query == query,
            filter_step(App { search_query: query, ..*old(self) }, *final(self)),
            fetches_distinct(*old(self)) ==> final(self).wf(),
    {
        self.search_query = query;
        self.filter_items();
    }

    /// Handles a key on the list (see `list_key_step`).
    pub fn handle_list_key(&mut self, key: Key)
        requires
            keys_unique(old(self).preview_cache@),
        ensures
            old(self).wf() ==> final(self).wf(),
            old(self).consistent() ==> final(self).consistent(),
            list_key_step(*old(self), key, *final(self)),
            keys_unique(final(self).preview_cache@),
    {
        if key.code == KeyCode::Enter {
            let selected = self.get_selected_items();
            if selected.len() > 0 {
                self.confirm_dialog.show(self.action_type, selected);
            }
        } else if key.is_down() {
            self.next();
        } else if key.is_up() {
            self.previous();
        } else if key.code == KeyCode::Tab {
            self.toggle_select();
        } else if key.is_with('o', KeyMods::Alt) {
            self.layout.toggle_to_horizontal();
        } else if key.is_with('v', KeyMods::Alt) {
            self.layout.toggle_to_vertical();
        } else if key.mods == KeyMods::Plain || key.mods == KeyMods::Shift {
            match key.code {
                KeyCode::Char(c) => {
                    let mut q = chars_of(self.search_query.as_str());
                    q.push(c);
                    let query = string_of(q.as_slice());
                    self.set_query(query);
                },
                KeyCode::Backspace => {
                    self.erase_char();
                },
                _ => {},
            }
        } else if key.code == KeyCode::Backspace {
            self.erase_char();
        }
    }

    /// Drops the last character of the query and refilters.
    fn erase_char(&mut self)
        requires
            keys_unique(old(self).preview_cache@),
        ensures
            final(self).search_query@ == erased(old(self).search_query@),
            filter_step(App { search_query: final(self).search_query, ..*old(self) }, *final(self)),
            keys_unique(final(self).preview_cache@),
    {
        let mut q = chars_of(self.search_query.as_str());
        if q.len() > 0 {
            q.pop();
        }
        let query = string_of(q.as_slice());
        self.set_query(query);
    }

    /// Handles a key on a package view of the main menu, once no overlay
    /// took it (see `view_key_step`).
    pub fn handle_view_key(&mut self, key: Key) -> (r: ViewAction)
        requires
            keys_unique(old(self).preview_cache@),
        ensures
            old(self).wf() ==> final(self).wf(),
            old(self).consistent() ==> final(self).consistent(),
            view_key_step(*old(self), key, *final(self), r),
            keys_unique(final(self).preview_cache@),
    {
        match tab_for_key(key) {
            Some(v) => ViewAction::SwitchView(v),
            None => if key.code == KeyCode::Esc {
                if self.search_query.unicode_len() == 0 {
                    ViewAction::SwitchView(crate::types::ViewType::Home)
                } else {
                    self.set_query(String::new());
                    ViewAction::Nothing
                }
            } else if key.is_with('r', KeyMods::Control) {
                ViewAction::RefreshView
            } else {
                self.handle_list_key(key);
                ViewAction::Nothing
            },
        }
    }

    /// Handles a key in the stand-alone selector (see `selector_key_step`).
    pub fn handle_selector_key(&mut self, key: Key) -> (r: SelectorStep)
        requires
            keys_unique(old(self).preview_cache@),
        ensures
            old(self).wf() ==> final(self).wf(),
            old(self).consistent() ==> final(self).consistent(),
            selector_key_step(*old(self), key, *final(self), r),
            keys_unique(final(self).preview_cache@),
    {
        if self.update_window.active {
            self.window_key(key);
            SelectorStep::Continue
        } else if self.confirm_dialog.active {
            let confirmed = key.is_confirm();
            self.confirm_dialog.handle_key(key);
            if confirmed {
                SelectorStep::Finish(clone_strings(&self.confirm_dialog.packages))
            } else {
                SelectorStep::Continue
            }
        } else if self.help_visible {
            self.help_key(key);
            SelectorStep::Continue
        } else if key.is_typed('?') {
            self.help_visible = true;
            self.help_scroll = 0;
            SelectorStep::Continue
        } else if key.code == KeyCode::Esc {
            SelectorStep::Finish(Vec::new())
        } else if key.is_with('u', KeyMods::Control) {
            SelectorStep::StartSystemUpdate
        } else {
            self.handle_list_key(key);
            SelectorStep::Continue
        }
    }

    /// One pass of the main loop: takes in the fetched previews and the
    /// operation's messages, closes the operation window after a success,
    /// and reports whether a redraw is due.
    pub fn tick(&mut self, previews: Vec<(String, String)>, messages: &Vec<UpdateMessage>) -> (r:
        TickOutcome)
        requires
            keys_unique(old(self).preview_cache@),
        ensures
            old(self).wf() ==> final(self).wf(),
            old(self).consistent() ==> final(self).consistent(),
            keys_unique(final(self).preview_cache@),
            cache_map(final(self).preview_cache@) == cache_after(
                cache_map(old(self).preview_cache@),
                previews@,
            ),
            final(self).preview_content@ == shown_after(
                opt_view(old(self).current_preview_item),
                old(self).preview_content@,
                previews@,
            ),
            string_views(final(self).in_flight@) == flight_after(
                string_views(old(self).in_flight@),
                previews@,
            ),
            *final(self) == (App {
                update_window: final(self).update_window,
                preview_cache: final(self).preview_cache,
                preview_content: final(self).preview_content,
                in_flight: final(self).in_flight,
                ..*old(self)
            }),
            ({
                let done = old(self).update_window.completed || last_completion(messages@) is Some;
                let err = match last_completion(messages@) {
                    Some(s) => !s,
                    None => old(self).update_window.has_error,
                };
                &&& r.auto_closed == (done && !err)
                &&& r.auto_closed ==> {
                    &&& !final(self).update_window.active
                    &&& final(self).update_window.output@.len() == 0
                    &&& !final(self).update_window.completed
                    &&& !final(self).update_window.has_error
                }
                &&& !r.auto_closed ==> {
                    &&& final(self).update_window.active == old(self).update_window.active
                    &&& string_views(final(self).update_window.output@) == string_views(
                        old(self).update_window.output@,
                    ) + output_lines(messages@)
                    &&& final(self).update_window.completed == done
                    &&& final(self).update_window.has_error == err
                }
            }),
            r.redraw == (old(self).update_window.just_closed || r.auto_closed),
            !final(self).update_window.just_closed,
    {
        self.check_preview_updates(previews);
        self.update_window.check_updates(messages);
        let auto_closed = self.update_window.should_auto_close();
        if auto_closed {
            self.update_window.close(false);
        }
        let redraw = self.update_window.just_closed;
        if redraw {
            self.update_window.clear_just_closed_flag();
        }
        TickOutcome { auto_closed, redraw }
    }

    /// Hands over the queued preview fetch, if any, for the caller to run.
    pub fn take_preview_job(&mut self) -> (r: Option<PreviewJob>)
        ensures
            old(self).wf() ==> final(self).wf(),
            old(self).consistent() ==> final(self).consistent(),
            r == old(self).pending_preview,
            final(self).pending_preview is None,
            string_views(final(self).in_flight@) == match r {
                Some(job) => string_views(old(self).in_flight@).push(job.item@),
                None => string_views(old(self).in_flight@),
            },
            same_but_preview(*old(self), *final(self)),
            final(self).preview_cache == old(self).preview_cache,
            final(self).preview_content == old(self).preview_content,
            final(self).current_preview_item == old(self).current_preview_item,
    {
        let r = self.pending_preview.take();
        match &r {
            Some(job) => {
                let item = job.item.clone();
                let ghost f = string_views(self.in_flight@);
                proof {
                    assert(string_views(self.in_flight@.push(item)) =~= f.push(item@));
                    if old(self).wf() {
                        assert(f.push(item@).no_duplicates()) by {
                            assert forall|i: int, j: int|
                                0 <= i < f.len() + 1 && 0 <= j < f.len() + 1 && i != j implies f.push(
                                item@,
                            )[i] != f.push(item@)[j] by {
                                if i == f.len() {
                                    assert(f[j] == f.push(item@)[j]);
                                } else if j == f.len() {
                                    assert(f[i] == f.push(item@)[i]);
                                }
                            }
                        }
                    }
                }
                self.in_flight.push(item);
            },
            None => {},
        }
        r
    }
}

/// Asking twice for the preview of the same cursor position starts at most
/// one fetch: the second request queues nothing and leaves the pane as it
/// was, whether the first found the preview cached, found it already
/// loading, or queued its fetch.
pub proof fn lemma_preview_requested_once(a: App, b: App, c: App)
    requires
        preview_step(a, b),
        preview_step(b, c),
    ensures
        c.pending_preview == b.pending_preview,
        c.preview_cache == b.preview_cache,
        c.preview_content@ == b.preview_content@,
        opt_view(c.current_preview_item) == opt_view(b.current_preview_item),
        same_but_preview(b, c),
{
    assert(preview_target(b) == preview_target(a));
    match preview_target(a) {
        None => {},
        Some(item) => {
            if cache_map(a.preview_cache@).contains_key(item) {
            } else if opt_view(a.current_preview_item) == Some(item) {
            } else {
                assert(!cache_map(b.preview_cache@).contains_key(item));
            }
        },
    }
}

/// A preview found in the cache is shown at once, and no fetch is queued.
pub proof fn lemma_cached_preview_needs_no_fetch(a: App, b: App)
    requires
        preview_step(a, b),
        preview_target(a) is Some,
        cache_map(a.preview_cache@).contains_key(preview_target(a)->0),
    ensures
        b.pending_preview == a.pending_preview,
        b.preview_content@ == cache_map(a.preview_cache@)[preview_target(a)->0],
        b.preview_cache == a.preview_cache,
{
}

/// While an overlay is open, keys never reach the list: the rows, the
/// cursor, the query, the marks and the layout stay as they are.
pub proof fn lemma_overlay_suppresses_list(a: App, k: Key, b: App)
    requires
        modal_open(a),
        modal_step(a, k, b),
    ensures
        b.items == a.items,
        b.filtered_items == a.filtered_items,
        b.selected == a.selected,
        b.search_query == a.search_query,
        b.selected_indices == a.selected_indices,
        b.layout == a.layout,
        b.preview_cache == a.preview_cache,
        b.pending_preview == a.pending_preview,
{
}

/// Whether `v` holds `x`.
fn contains_string(v: &Vec<String>, x: &String) -> (r: bool)
    ensures
        r == string_views(v@).contains(x@),
{
    let mut i: usize = 0;
    while i < v.len()
        invariant
            i <= v@.len(),
            forall|k: int| 0 <= k < i ==> v@[k]@ != x@,
        decreases v@.len() - i,
    {
        if v[i] == *x {
            proof {
                assert(string_views(v@)[i as int] == x@);
            }
            return true;
        }
        i += 1;
    }
    proof {
        assert forall|k: int| 0 <= k < string_views(v@).len() implies string_views(v@)[k] != x@ by {
            assert(string_views(v@)[k] == v@[k]@);
        }
    }
    false
}

/// `v` without the strings equal to `x`.
fn without_string(v: &Vec<String>, x: &String) -> (r: Vec<String>)
    ensures
        string_views(r@) == drop_item(string_views(v@), x@),
{
    let mut out: Vec<String> = Vec::new();
    let mut i: usize = 0;
    while i < v.len()
        invariant
            i <= v@.len(),
            string_views(out@) == drop_item(string_views(v@).subrange(0, i as int), x@),
        decreases v@.len() - i,
    {
        proof {
            let t = string_views(v@).subrange(0, i as int + 1);
            assert(t.drop_last() =~= string_views(v@).subrange(0, i as int));
            assert(t.last() == v@[i as int]@);
        }
        if v[i] != *x {
            let s = v[i].clone();
            proof {
                assert(string_views(out@.push(s)) =~= string_views(out@).push(s@));
            }
            out.push(s);
        }
        i += 1;
    }
    proof {
        assert(string_views(v@).subrange(0, i as int) =~= string_views(v@));
    }
    out
}

/// A copy of `v`, string by string.
pub fn clone_strings(v: &Vec<String>) -> (r: Vec<String>)
    ensures
        string_views(r@) == string_views(v@),
{
    let mut out: Vec<String> = Vec::new();
    let mut i: usize = 0;
    while i < v.len()
        invariant
            i <= v@.len(),
            string_views(out@) == string_views(v@).subrange(0, i as int),
        decreases v@.len() - i,
    {
        let s = v[i].clone();
        proof {
            assert(string_views(out@.push(s)) =~= string_views(out@).push(s@));
            assert(string_views(v@).subrange(0, i as int + 1) =~= string_views(v@).subrange(
                0,
                i as int,
            ).push(v@[i as int]@));
        }
        out.push(s);
        i += 1;
    }
    proof {
        assert(string_views(v@).subrange(0, i as int) =~= string_views(v@));
    }
    out
}

proof fn lemma_cache_has_when_wf(c: Seq<(String, String)>, j: int)
    requires
        0 <= j < c.len(),
    ensures
        keys_unique(c) ==> cache_map(c).contains_key(c[j].0@) && cache_map(c)[c[j].0@] == c[j].1@,
{
    if keys_unique(c) {
        lemma_cache_has(c, j);
    }
}

} // verus!
