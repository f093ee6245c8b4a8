//! What the screen shows of the application state: the rows of the branch
//! list, the status line and the popups.
use vstd::prelude::*;
use vstd::string::*;
use crate::app::{App, AppView};
use crate::structs::{BranchView, DisplayMode};
use crate::utils::{count_string, decimal, pluralize, pluralized};
use crate::widgets::{popup_area, popup_area_of, Area, ConfirmPopup, MessagePopup};

verus! {

/// One row of the branch list.
#[derive(Debug)]
pub struct ListRow {
    /// Whether the cursor is on this row.
    pub selected: bool,
    /// Whether the branch is marked for deletion.
    pub marked: bool,
    /// Whether the branch is checked out.
    pub current: bool,
    pub name: String,
    pub author: String,
    /// Time of the branch's last commit, in seconds since the Unix epoch.
    pub last_commit_at: i64,
}

/// The line above the branch list: text on the left and on the right.
#[derive(Debug)]
pub struct StatusLine {
    pub left: String,
    pub right: String,
    /// Whether the filter is being edited, which shows a blinking cursor after
    /// the left text.
    pub editing: bool,
}

/// Whether row `i` of the list shows `branch`, as [`App::list_rows`] builds it.
pub open spec fn row_shows(view: AppView, i: int, row: ListRow) -> bool {
    let bi = view.included[i];
    let b: BranchView = view.entries[bi as int];
    &&& row.selected == (view.cursor_index == Some(i as usize))
    &&& row.marked == view.marked.contains(bi)
    &&& row.current == b.current
    &&& row.name@ == b.name
    &&& row.author@ == b.author
    &&& row.last_commit_at == b.last_commit_at
}

impl AppView {
    /// The text shown instead of an empty list.
    pub open spec fn empty_list_text(self) -> Seq<char> {
        if self.display_mode == DisplayMode::Filter {
            "No branches found."@
        } else {
            "No branches found. Press 'f' to edit the filter or 'R' to reset it."@
        }
    }

    /// The status line: nothing in the help view or while deletion is
    /// confirmed; the filter with
    /// the listed and total counts while there is one or it is edited; else the
    /// number of branches, with the number of marked ones when there are any.
    pub open spec fn status(self) -> Option<(Seq<char>, Seq<char>, bool)> {
        if self.display_mode is ConfirmDeletion || self.display_mode == DisplayMode::Help {
            None
        } else if self.display_mode == DisplayMode::Filter || self.active_filter is Some {
            let filter = match self.active_filter {
                Some(f) => f,
                None => Seq::empty(),
            };
            Some((
                "Filter branches ("@ + decimal(self.included.len() as int) + "/"@ + decimal(
                    self.entries.len() as int,
                ) + "): "@ + filter,
                "Press (Enter) to submit"@,
                self.display_mode == DisplayMode::Filter,
            ))
        } else {
            let count = pluralized(self.entries.len() as i64 as int, "branch"@, "branches"@);
            let selected = self.marked.len();
            let left = if selected > 0 {
                decimal(selected as int) + "/"@ + count + " selected"@
            } else {
                count
            };
            let right = match self.debug_text {
                Some(d) => "Press (h) for help"@ + " | "@ + d,
                None => "Press (h) for help"@,
            };
            Some((left, right, false))
        }
    }

    /// The question asked before the marked branches are deleted.
    pub open spec fn confirm_text(self) -> Seq<char> {
        "Are you sure you want to delete "@ + pluralized(self.marked.len() as i64 as int, "branch"@, "branches"@)
            + "?"@
    }
}

impl App {
    /// The rows of the branch list, in list order.
    pub fn list_rows(&self) -> (rows: Vec<ListRow>)
        requires
            self@.list_in_range(),
        ensures
            rows@.len() == self@.included.len(),
            forall|i: int| 0 <= i < rows@.len() ==> row_shows(self@, i, #[trigger] rows@[i]),
    {
        let n = self.branches.included_indexes.len();
        let mut rows: Vec<ListRow> = Vec::new();
        let mut i: usize = 0;
        while i < n
            invariant
                n == self@.included.len(),
                i <= n,
                self@.list_in_range(),
                rows@.len() == i,
                forall|t: int| 0 <= t < i ==> row_shows(self@, t, #[trigger] rows@[t]),
            decreases n - i,
        {
            let bi = self.branches.included_indexes[i];
            assert(self@.included[i as int] < self@.entries.len());
            let branch = &self.branches.entries[bi];
            assert(self@.entries[bi as int] == branch@);
            let m = self.branches.marked_indexes.len();
            let mut marked = false;
            let mut j: usize = 0;
            while j < m
                invariant
                    m == self@.marked.len(),
                    j <= m,
                    marked == (exists|t: int| 0 <= t < j && self@.marked[t] == bi),
                decreases m - j,
            {
                if self.branches.marked_indexes[j] == bi {
                    marked = true;
                }
                j = j + 1;
            }
            let row = ListRow {
                selected: self.cursor_index == Some(i),
                marked,
                current: branch.current,
                name: branch.name.clone(),
                author: branch.author.clone(),
                last_commit_at: branch.last_commit_at,
            };
            proof {
                if marked {
                    let t = choose|t: int| 0 <= t < j && self@.marked[t] == bi;
                    assert(self@.marked.contains(bi));
                } else {
                    assert(!self@.marked.contains(bi));
                }
            }
            rows.push(row);
            i = i + 1;
        }
        rows
    }

    /// The text shown instead of an empty list.
    pub fn empty_list_message(&self) -> (text: String)
        ensures
            text@ == self@.empty_list_text(),
    {
        if self.is_filter_mode() {
            String::from_str("No branches found.")
        } else {
            String::from_str("No branches found. Press 'f' to edit the filter or 'R' to reset it.")
        }
    }

    /// The status line above the list, if it shows anything.
    pub fn status_line(&self) -> (line: Option<StatusLine>)
        ensures
            match self@.status() {
                Some((left, right, editing)) => line matches Some(l) && l.left@ == left && l.right@
                    == right && l.editing == editing,
                None => line is None,
            },
    {
        if self.is_confirm_deletion_mode() || self.is_help_mode() {
            return None;
        }
        let editing = self.is_filter_mode();
        if editing || self.active_filter.is_some() {
            let mut left = String::from_str("Filter branches (");
            left.append(count_string(self.branches.included_indexes.len()).as_str());
            left.append("/");
            left.append(count_string(self.branches.entries.len()).as_str());
            left.append("): ");
            if let Some(filter) = &self.active_filter {
                left.append(filter.as_str());
            }
            assert(left@ =~= self@.status().unwrap().0);
            Some(StatusLine { left, right: String::from_str("Press (Enter) to submit"), editing })
        } else {
            let count = pluralize(self.branches.entries.len() as i64, "branch", "branches");
            let selected = self.branches.marked_indexes.len();
            let left = if selected > 0 {
                let mut left = count_string(selected);
                left.append("/");
                left.append(count.as_str());
                left.append(" selected");
                left
            } else {
                count
            };
            let mut right = String::from_str("Press (h) for help");
            if let Some(debug_text) = &self.debug_text {
                right.append(" | ");
                right.append(debug_text.as_str());
            }
            assert(left@ =~= self@.status().unwrap().0);
            assert(right@ =~= self@.status().unwrap().1);
            Some(StatusLine { left, right, editing: false })
        }
    }

    /// The popup that asks whether to delete the marked branches, shown while
    /// the deletion is being confirmed.
    pub fn confirm_popup(&self) -> (popup: Option<ConfirmPopup>)
        ensures
            match popup {
                Some(p) => self@.display_mode is ConfirmDeletion && p.title@ == " Confirm deletion "@
                    && p.content@ == self@.confirm_text(),
                None => !(self@.display_mode is ConfirmDeletion),
            },
    {
        if !self.is_confirm_deletion_mode() {
            return None;
        }
        let mut content = String::from_str("Are you sure you want to delete ");
        content.append(pluralize(self.branches.marked_indexes.len() as i64, "branch", "branches").as_str());
        content.append("?");
        Some(ConfirmPopup { title: String::from_str(" Confirm deletion "), content })
    }

    /// The popup that shows the alert, if there is one; the help view shows
    /// none.
    pub fn alert_popup(&self) -> (popup: Option<MessagePopup>)
        ensures
            match self@.alert {
                Some(a) => if self@.display_mode == DisplayMode::Help {
                    popup is None
                } else {
                    popup matches Some(p) && p.title@ == a.title && p.content@ == a.message
                },
                None => popup is None,
            },
    {
        if self.is_help_mode() {
            return None;
        }
        match &self.alert {
            Some(alert) => Some(MessagePopup { title: alert.title.clone(), content: alert.message.clone() }),
            None => None,
        }
    }
}

} // verus!

verus! {

impl App {
    /// Whether every listed index points at an entry, which drawing the list
    /// needs.
    pub fn list_in_range(&self) -> (ok: bool)
        ensures
            ok == self@.list_in_range(),
    {
        let n = self.branches.included_indexes.len();
        let mut i: usize = 0;
        while i < n
            invariant
                n == self@.included.len(),
                i <= n,
                forall|t: int| 0 <= t < i ==> #[trigger] self@.included[t] < self@.entries.len(),
            decreases n - i,
        {
            if self.branches.included_indexes[i] >= self.branches.entries.len() {
                return false;
            }
            i = i + 1;
        }
        true
    }
}

} // verus!

verus! {

/// How a row of the help table is drawn.
#[derive(Debug, Clone, Copy, PartialEq, Eq, Structural)]
pub enum HelpRowKind {
    /// A section title; all but the first have a blank line above.
    Section { spaced: bool },
    /// The titles of the two columns.
    ColumnTitles,
    /// Keys and what they do.
    Entry,
}

/// One row of the help table.
#[derive(Debug)]
pub struct HelpRow {
    pub keys: String,
    pub description: String,
    pub kind: HelpRowKind,
}

/// The rows of a help section: its title and the column titles.
pub open spec fn help_section(title: Seq<char>, spaced: bool) -> Seq<(Seq<char>, Seq<char>, HelpRowKind)> {
    seq![
        (title, ""@, HelpRowKind::Section { spaced }),
        ("Keys"@, "Description"@, HelpRowKind::ColumnTitles),
    ]
}

/// An entry of the help table.
pub open spec fn help_entry(keys: Seq<char>, description: Seq<char>) -> (Seq<char>, Seq<char>, HelpRowKind) {
    (keys, description, HelpRowKind::Entry)
}

/// The help table: the keys of the help view, of the main view and of the
/// branch filter.
pub open spec fn help_table() -> Seq<(Seq<char>, Seq<char>, HelpRowKind)> {
    help_section("Help view"@, false) + seq![
        help_entry("q | h"@, "Exit help view"@),
        help_entry("UP | k"@, "Move cursor up one line"@),
        help_entry("DOWN | j"@, "Move cursor down one line"@),
    ] + help_section("Main view"@, true) + seq![
        help_entry("h"@, "Toggle help page"@),
        help_entry("q | ESC"@, "Quit UI or app"@),
        help_entry("UP | k"@, "Move cursor up one line"@),
        help_entry("DOWN | j"@, "Move cursor down one line"@),
        help_entry("Ctrl + u"@, "Move cursor up half the screen"@),
        help_entry("Ctrl + d"@, "Move cursor down half the screen"@),
        help_entry("Enter"@, "Check out branch"@),
        help_entry("f | /"@, "Focus branch filter"@),
        help_entry("R"@, "Reset branch filter"@),
        help_entry("x"@, "Mark branch"@),
        help_entry("X"@, "Clear all marked branches"@),
        help_entry("d | DELETE"@, "Delete marked branches"@),
        help_entry("t"@, "Toggle showing remote branches"@),
    ] + help_section("Branch filter mode"@, true) + seq![
        help_entry("Enter"@, "Submit filter"@),
        help_entry("ESC"@, "Discard filter"@),
    ]
}

/// The value of a help row.
pub open spec fn help_row_view(row: HelpRow) -> (Seq<char>, Seq<char>, HelpRowKind) {
    (row.keys@, row.description@, row.kind)
}

fn push_row(rows: &mut Vec<HelpRow>, keys: &str, description: &str, kind: HelpRowKind)
    ensures
        final(rows)@.map_values(|r: HelpRow| help_row_view(r)) == old(rows)@.map_values(
            |r: HelpRow| help_row_view(r),
        ).push((keys@, description@, kind)),
{
    rows.push(HelpRow { keys: String::from_str(keys), description: String::from_str(description), kind });
    assert(final(rows)@.map_values(|r: HelpRow| help_row_view(r)) =~= old(rows)@.map_values(
        |r: HelpRow| help_row_view(r),
    ).push((keys@, description@, kind)));
}

/// The rows of the help table, top to bottom.
pub fn help_rows() -> (rows: Vec<HelpRow>)
    ensures
        rows@.map_values(|r: HelpRow| help_row_view(r)) == help_table(),
{
    let mut rows: Vec<HelpRow> = Vec::new();
    push_row(&mut rows, "Help view", "", HelpRowKind::Section { spaced: false });
    push_row(&mut rows, "Keys", "Description", HelpRowKind::ColumnTitles);
    push_row(&mut rows, "q | h", "Exit help view", HelpRowKind::Entry);
    push_row(&mut rows, "UP | k", "Move cursor up one line", HelpRowKind::Entry);
    push_row(&mut rows, "DOWN | j", "Move cursor down one line", HelpRowKind::Entry);
    push_row(&mut rows, "Main view", "", HelpRowKind::Section { spaced: true });
    push_row(&mut rows, "Keys", "Description", HelpRowKind::ColumnTitles);
    push_row(&mut rows, "h", "Toggle help page", HelpRowKind::Entry);
    push_row(&mut rows, "q | ESC", "Quit UI or app", HelpRowKind::Entry);
    push_row(&mut rows, "UP | k", "Move cursor up one line", HelpRowKind::Entry);
    push_row(&mut rows, "DOWN | j", "Move cursor down one line", HelpRowKind::Entry);
    push_row(&mut rows, "Ctrl + u", "Move cursor up half the screen", HelpRowKind::Entry);
    push_row(&mut rows, "Ctrl + d", "Move cursor down half the screen", HelpRowKind::Entry);
    push_row(&mut rows, "Enter", "Check out branch", HelpRowKind::Entry);
    push_row(&mut rows, "f | /", "Focus branch filter", HelpRowKind::Entry);
    push_row(&mut rows, "R", "Reset branch filter", HelpRowKind::Entry);
    push_row(&mut rows, "x", "Mark branch", HelpRowKind::Entry);
    push_row(&mut rows, "X", "Clear all marked branches", HelpRowKind::Entry);
    push_row(&mut rows, "d | DELETE", "Delete marked branches", HelpRowKind::Entry);
    push_row(&mut rows, "t", "Toggle showing remote branches", HelpRowKind::Entry);
    push_row(&mut rows, "Branch filter mode", "", HelpRowKind::Section { spaced: true });
    push_row(&mut rows, "Keys", "Description", HelpRowKind::ColumnTitles);
    push_row(&mut rows, "Enter", "Submit filter", HelpRowKind::Entry);
    push_row(&mut rows, "ESC", "Discard filter", HelpRowKind::Entry);
    assert(rows@.map_values(|r: HelpRow| help_row_view(r)) =~= help_table());
    rows
}

} // verus!

verus! {

/// The share of the screen's width and height, in percent, that a popup takes.
pub const POPUP_PERCENT: u16 = 50;

/// What the screen is made of in the present mode.
#[derive(Debug, Clone, Copy, PartialEq, Eq, Structural)]
pub enum Layer {
    /// The help table alone, under its title.
    Help,
    /// The status line above the branch list, with the popups over them.
    List,
}

impl App {
    /// What the screen is made of: the help view shows its table and nothing
    /// else (no list, no status line, no popup); every other mode shows the
    /// list with its status line and popups.
    pub fn layer(&self) -> (layer: Layer)
        ensures
            (layer == Layer::Help) == (self@.display_mode == DisplayMode::Help),
            layer == Layer::Help ==> self@.status() is None,
    {
        if self.is_help_mode() { Layer::Help } else { Layer::List }
    }
}

/// Where the popups go on a screen of the given area.
pub fn screen_popup_area(screen: Area) -> (area: Area)
    ensures
        area == popup_area_of(screen, POPUP_PERCENT, POPUP_PERCENT),
{
    popup_area(screen, POPUP_PERCENT, POPUP_PERCENT)
}

/// The title above the help table.
pub fn help_title() -> (title: String)
    ensures
        title@ == "Help reference"@,
{
    String::from_str("Help reference")
}

} // verus!
