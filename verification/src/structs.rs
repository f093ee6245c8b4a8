//! The data that the branch list is made of, and the display modes.
use vstd::prelude::*;
use crate::foreign::{utc_timestamp_exists, utc_timestamp_valid};

verus! {

/// What the screen shows and how keys are read.
#[derive(Debug, Clone, Copy, PartialEq, Eq, Structural)]
pub enum DisplayMode {
    Normal,
    Help,
    Filter,
    /// Asking whether to delete the marked branches; `true` when the marks were
    /// made by hand, `false` when the one branch under the cursor was marked for
    /// this question alone.
    ConfirmDeletion(bool),
}

impl Default for DisplayMode {
    fn default() -> (mode: DisplayMode)
        ensures
            mode == DisplayMode::Normal,
    {
        DisplayMode::Normal
    }
}

/// A message shown in a popup until it is dismissed.
#[derive(Debug)]
pub struct Alert {
    pub title: String,
    pub message: String,
}

/// The mathematical value of an [`Alert`].
pub struct AlertView {
    pub title: Seq<char>,
    pub message: Seq<char>,
}

impl View for Alert {
    type V = AlertView;

    open spec fn view(&self) -> AlertView {
        AlertView { title: self.title@, message: self.message@ }
    }
}

/// Where a branch lives: in this repository or on a remote.
#[derive(Debug, Clone, Copy, PartialEq, Eq, Structural)]
pub enum BranchKind {
    Local,
    Remote,
}

/// One branch of the repository as the list shows it.
#[derive(Debug)]
pub struct Branch {
    pub name: String,
    pub branch_type: BranchKind,
    pub author: String,
    /// Whether HEAD points at this branch.
    pub current: bool,
    /// Time of the branch's last commit, in seconds since the Unix epoch.
    pub last_commit_at: i64,
}

/// The mathematical value of a [`Branch`].
pub struct BranchView {
    pub name: Seq<char>,
    pub branch_type: BranchKind,
    pub author: Seq<char>,
    pub current: bool,
    pub last_commit_at: i64,
}

impl View for Branch {
    type V = BranchView;

    open spec fn view(&self) -> BranchView {
        BranchView {
            name: self.name@,
            branch_type: self.branch_type,
            author: self.author@,
            current: self.current,
            last_commit_at: self.last_commit_at,
        }
    }
}

/// Scroll position and selected row of a table on screen.
#[derive(Debug, Clone, Copy, PartialEq, Eq, Structural)]
pub struct TableView {
    /// Index of the first row shown.
    pub offset: usize,
    /// Index of the highlighted row, if any.
    pub selected: Option<usize>,
}

/// The branches that were read, which of them the filter lets through, and
/// which of them are marked for deletion.
#[derive(Debug)]
pub struct Branches {
    /// All branches, newest last commit first.
    pub entries: Vec<Branch>,
    /// Indexes into `entries` of the branches that are listed, in list order.
    pub included_indexes: Vec<usize>,
    /// Indexes into `entries` of the branches marked for deletion.
    pub marked_indexes: Vec<usize>,
    /// Which branches are read: only local ones, or all of them (`None`).
    pub branch_type: Option<BranchKind>,
    /// The scroll state of the list.
    pub state: TableView,
}

/// The views of a sequence of branches.
pub open spec fn branch_views(entries: Seq<Branch>) -> Seq<BranchView> {
    entries.map_values(|b: Branch| b@)
}

/// Builds a branch from what was read of it in the repository: its name, the
/// author of its last commit and the time of that commit. A branch of which
/// one of these could not be read, or whose commit time lies outside the
/// dates that can be shown, is left out.
pub fn read_branch(
    name: Option<String>,
    branch_type: BranchKind,
    author: Option<String>,
    current: bool,
    commit_time: Option<i64>,
) -> (branch: Option<Branch>)
    ensures
        branch is Some <==> (name is Some && author is Some && commit_time is Some
            && utc_timestamp_valid(commit_time.unwrap())),
        branch matches Some(b) ==> (b@ == BranchView {
            name: name.unwrap()@,
            branch_type,
            author: author.unwrap()@,
            current,
            last_commit_at: commit_time.unwrap(),
        }),
{
    let name = name?;
    let author = author?;
    let last_commit_at = commit_time?;
    if !utc_timestamp_exists(last_commit_at) {
        return None;
    }
    Some(Branch { name, branch_type, author, current, last_commit_at })
}

} // verus!
