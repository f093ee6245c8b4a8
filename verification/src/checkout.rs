//! Checking out a branch: the decisions between the steps that the runner
//! carries out on the repository, and the alert that a failed step leaves.
use vstd::prelude::*;
use vstd::string::*;
use crate::filter::chars_of;
use crate::foreign::push_char;
use crate::structs::{Alert, AlertView, Branch, BranchKind};

verus! {

/// The next thing the runner does on the repository.
#[derive(Debug, Clone, Copy, PartialEq, Eq, Structural)]
pub enum CheckoutStep {
    /// Find the branch `branch_name` of the kind `branch_type`.
    FindBranch,
    /// Find the commit that the found branch points at.
    PeelToCommit,
    /// Find the local branch `local_name`.
    FindLocalBranch,
    /// Create the local branch `local_name` at the commit.
    CreateLocalBranch,
    /// Make `branch_name` the upstream of the created local branch.
    SetUpstream,
    /// Check out the tree of the commit.
    CheckoutTree,
    /// Read the reference name of the local branch.
    ReadReferenceName,
    /// Point HEAD at `reference`.
    SetHead,
    /// Nothing is left to do; `alert` says whether it failed.
    Finished,
}

/// How a step on the repository went.
#[derive(Debug)]
pub enum StepOutcome {
    Done,
    /// The step failed with this message.
    Failed(String),
    /// The reference name that was read.
    Named(String),
}

/// The progress of one checkout.
#[derive(Debug)]
pub struct Checkout {
    /// The full name of the branch to check out.
    pub branch_name: String,
    pub branch_type: BranchKind,
    /// For a remote branch, the name of the local branch that follows it.
    pub local_name: Option<String>,
    /// The reference that HEAD is set to.
    pub reference: Option<String>,
    pub step: CheckoutStep,
    /// Why the checkout failed, once it has.
    pub alert: Option<Alert>,
}

/// The mathematical value of a [`Checkout`].
#[verifier::ext_equal]
pub struct CheckoutView {
    pub branch_name: Seq<char>,
    pub branch_type: BranchKind,
    pub local_name: Option<Seq<char>>,
    pub reference: Option<Seq<char>>,
    pub step: CheckoutStep,
    pub alert: Option<AlertView>,
}

impl View for Checkout {
    type V = CheckoutView;

    open spec fn view(&self) -> CheckoutView {
        CheckoutView {
            branch_name: self.branch_name@,
            branch_type: self.branch_type,
            local_name: crate::app::opt_text(self.local_name),
            reference: crate::app::opt_text(self.reference),
            step: self.step,
            alert: crate::app::opt_alert(self.alert),
        }
    }
}

/// The prefix of the full names of remote-tracking branches.
pub open spec fn remotes_prefix() -> Seq<char> {
    "refs/remotes/"@
}

/// Index of the first `c` in `s`, or -1 when there is none.
pub open spec fn first_char_index(s: Seq<char>, c: char) -> int
    decreases s.len(),
{
    if s.len() == 0 {
        -1
    } else if s[0] == c {
        0
    } else {
        let r = first_char_index(s.drop_first(), c);
        if r < 0 { -1 } else { r + 1 }
    }
}

/// The name of the local branch that follows a remote branch: the remote
/// name is dropped, after `refs/remotes/` when the name starts with it, up to
/// the first slash; no name when there is no slash.
pub open spec fn local_name_for_remote(name: Seq<char>) -> Option<Seq<char>> {
    let p = remotes_prefix();
    let short = if p.is_prefix_of(name) { name.subrange(p.len() as int, name.len() as int) } else { name };
    let slash = first_char_index(short, '/');
    if slash < 0 { None } else { Some(short.subrange(slash + 1, short.len() as int)) }
}

proof fn lemma_first_char_index(s: Seq<char>, c: char, j: int)
    requires
        0 <= j <= s.len(),
        forall|t: int| 0 <= t < j ==> s[t] != c,
        j == s.len() || s[j] == c,
    ensures
        first_char_index(s, c) == if j == s.len() { -1 } else { j },
    decreases s.len(),
{
    if s.len() > 0 && j > 0 {
        lemma_first_char_index(s.drop_first(), c, j - 1);
    }
}

/// Finds the name of the local branch that follows a remote branch.
pub fn remote_to_local_name(name: &str) -> (local: Option<String>)
    ensures
        match local_name_for_remote(name@) {
            Some(l) => local matches Some(s) && s@ == l,
            None => local is None,
        },
{
    let chars = chars_of(name);
    let prefix = chars_of("refs/remotes/");
    let n = chars.len();
    let m = prefix.len();
    let mut is_prefix = m <= n;
    if is_prefix {
        let mut i: usize = 0;
        while i < m
            invariant
                m == prefix@.len(),
                n == chars@.len(),
                m <= n,
                i <= m,
                is_prefix == (forall|t: int| 0 <= t < i ==> prefix@[t] == chars@[t]),
            decreases m - i,
        {
            if prefix[i] != chars[i] {
                is_prefix = false;
            }
            i = i + 1;
        }
    }
    assert(is_prefix == remotes_prefix().is_prefix_of(name@));
    let start: usize = if is_prefix { m } else { 0 };
    let ghost short = if is_prefix { name@.subrange(m as int, n as int) } else { name@ };
    let mut j: usize = start;
    while j < n && chars[j] != '/'
        invariant
            n == chars@.len(),
            chars@ == name@,
            start <= j <= n,
            short == name@.subrange(start as int, n as int),
            forall|t: int| start <= t < j ==> chars@[t] != '/',
        decreases n - j,
    {
        j = j + 1;
    }
    proof {
        lemma_first_char_index(short, '/', j - start);
    }
    if j == n {
        return None;
    }
    let mut local = String::new();
    let mut k: usize = j + 1;
    while k < n
        invariant
            n == chars@.len(),
            chars@ == name@,
            j < k <= n,
            local@ == name@.subrange(j + 1, k as int),
        decreases n - k,
    {
        push_char(&mut local, chars[k]);
        k = k + 1;
        assert(local@ =~= name@.subrange(j + 1, k as int));
    }
    assert(short.subrange(j - start + 1, short.len() as int) =~= name@.subrange(j + 1, n as int));
    Some(local)
}

} // verus!

verus! {

/// `before`, the name in quotes, `after`: the shape of the checkout messages.
pub open spec fn quoted(before: Seq<char>, name: Seq<char>, after: Seq<char>) -> Seq<char> {
    before + name + after
}

fn quote(before: &str, name: &str, after: &str) -> (s: String)
    ensures
        s@ == quoted(before@, name@, after@),
{
    let mut s = String::from_str(before);
    s.append(name);
    s.append(after);
    s
}

/// The text that an outcome carries.
pub open spec fn outcome_text(outcome: StepOutcome) -> Seq<char> {
    match outcome {
        StepOutcome::Done => Seq::empty(),
        StepOutcome::Failed(m) => m@,
        StepOutcome::Named(r) => r@,
    }
}

/// The optional text, or nothing.
pub open spec fn text_or_empty(o: Option<Seq<char>>) -> Seq<char> {
    match o {
        Some(s) => s,
        None => Seq::empty(),
    }
}

impl CheckoutView {
    /// Whether the names that the present step needs are known.
    pub open spec fn well_formed(self) -> bool {
        &&& (self.step == CheckoutStep::FindLocalBranch || self.step == CheckoutStep::CreateLocalBranch
            || self.step == CheckoutStep::SetUpstream) ==> self.local_name is Some
        &&& self.step == CheckoutStep::SetHead ==> self.reference is Some
        &&& self.alert is Some ==> self.step == CheckoutStep::Finished
    }

    /// The checkout ended with an alert.
    pub open spec fn failing(self, title: Seq<char>, message: Seq<char>) -> CheckoutView {
        CheckoutView {
            step: CheckoutStep::Finished,
            alert: Some(AlertView { title, message }),
            ..self
        }
    }

    /// The checkout after the present step went as told: `failed` with the
    /// message `text`, or done, or for the reading of the reference name, with
    /// that name as `text`.
    pub open spec fn after(self, failed: bool, text: Seq<char>) -> CheckoutView {
        let name = self.branch_name;
        let local = text_or_empty(self.local_name);
        match self.step {
            CheckoutStep::FindBranch => if failed {
                self.failing("Can't checkout branch"@, quoted("Can't find '"@, name, "' branch"@))
            } else {
                CheckoutView { step: CheckoutStep::PeelToCommit, ..self }
            },
            CheckoutStep::PeelToCommit => if failed {
                self.failing(
                    "Can't checkout branch"@,
                    quoted("Can't get commit for '"@, name, "' branch: "@) + text,
                )
            } else if self.branch_type == BranchKind::Local {
                CheckoutView { step: CheckoutStep::CheckoutTree, ..self }
            } else {
                match local_name_for_remote(name) {
                    Some(l) => CheckoutView {
                        local_name: Some(l),
                        step: CheckoutStep::FindLocalBranch,
                        ..self
                    },
                    None => self.failing(
                        "Can't normalize branch name"@,
                        "Can't find normalize branch name. Not a remote branch?"@,
                    ),
                }
            },
            CheckoutStep::FindLocalBranch => if failed {
                CheckoutView { step: CheckoutStep::CreateLocalBranch, ..self }
            } else {
                CheckoutView { step: CheckoutStep::CheckoutTree, ..self }
            },
            CheckoutStep::CreateLocalBranch => if failed {
                self.failing("Can't checkout branch"@, quoted("Can't set head to '"@, local, "' branch: "@) + text)
            } else {
                CheckoutView { step: CheckoutStep::SetUpstream, ..self }
            },
            CheckoutStep::SetUpstream => if failed {
                self.failing(
                    "Can't set upstream of branch"@,
                    quoted("Can't set upstream of new local '"@, local, "' branch branch: "@) + text,
                )
            } else {
                CheckoutView { step: CheckoutStep::CheckoutTree, ..self }
            },
            CheckoutStep::CheckoutTree => if failed {
                self.failing("Can't checkout branch"@, quoted("Can't checkout '"@, name, "' branch: "@) + text)
            } else {
                CheckoutView { step: CheckoutStep::ReadReferenceName, ..self }
            },
            CheckoutStep::ReadReferenceName => CheckoutView {
                reference: Some(text),
                step: CheckoutStep::SetHead,
                ..self
            },
            CheckoutStep::SetHead => if failed {
                self.failing(
                    "Can't checkout branch"@,
                    quoted("Can't set head to '"@, text_or_empty(self.reference), "' branch: "@) + text,
                )
            } else {
                CheckoutView { step: CheckoutStep::Finished, ..self }
            },
            CheckoutStep::Finished => self,
        }
    }
}

impl Checkout {
    /// Starts checking out a branch by finding it.
    pub fn start(branch: &Branch) -> (checkout: Checkout)
        ensures
            checkout@ == (CheckoutView {
                branch_name: branch.name@,
                branch_type: branch.branch_type,
                local_name: None,
                reference: None,
                step: CheckoutStep::FindBranch,
                alert: None,
            }),
    {
        Checkout {
            branch_name: branch.name.clone(),
            branch_type: branch.branch_type,
            local_name: None,
            reference: None,
            step: CheckoutStep::FindBranch,
            alert: None,
        }
    }

    fn fail(&mut self, title: &str, message: String)
        ensures
            final(self)@ == old(self)@.failing(title@, message@),
    {
        self.step = CheckoutStep::Finished;
        self.alert = Some(Alert { title: String::from_str(title), message });
    }

    /// Takes how the present step went and moves to the next step.
    pub fn advance(&mut self, outcome: StepOutcome)
        requires
            old(self)@.well_formed(),
            old(self).step != CheckoutStep::Finished,
            (old(self).step == CheckoutStep::ReadReferenceName) == (outcome is Named),
        ensures
            final(self)@ == old(self)@.after(outcome is Failed, outcome_text(outcome)),
            final(self)@.well_formed(),
    {
        let failure = match outcome {
            StepOutcome::Failed(message) => Some(message),
            StepOutcome::Named(reference) => {
                self.reference = Some(reference);
                self.step = CheckoutStep::SetHead;
                return;
            },
            StepOutcome::Done => None,
        };
        match self.step {
            CheckoutStep::FindBranch => match failure {
                Some(_) => {
                    let message = quote("Can't find '", self.branch_name.as_str(), "' branch");
                    self.fail("Can't checkout branch", message);
                },
                None => self.step = CheckoutStep::PeelToCommit,
            },
            CheckoutStep::PeelToCommit => match failure {
                Some(text) => {
                    let mut message = quote("Can't get commit for '", self.branch_name.as_str(), "' branch: ");
                    message.append(text.as_str());
                    self.fail("Can't checkout branch", message);
                },
                None => if self.branch_type == BranchKind::Local {
                    self.step = CheckoutStep::CheckoutTree;
                } else {
                    match remote_to_local_name(self.branch_name.as_str()) {
                        Some(local) => {
                            self.local_name = Some(local);
                            self.step = CheckoutStep::FindLocalBranch;
                        },
                        None => self.fail(
                            "Can't normalize branch name",
                            String::from_str("Can't find normalize branch name. Not a remote branch?"),
                        ),
                    }
                },
            },
            CheckoutStep::FindLocalBranch => match failure {
                Some(_) => self.step = CheckoutStep::CreateLocalBranch,
                None => self.step = CheckoutStep::CheckoutTree,
            },
            CheckoutStep::CreateLocalBranch => match failure {
                Some(text) => {
                    let local = match &self.local_name {
                        Some(l) => l.clone(),
                        None => String::new(),
                    };
                    let mut message = quote("Can't set head to '", local.as_str(), "' branch: ");
                    message.append(text.as_str());
                    self.fail("Can't checkout branch", message);
                },
                None => self.step = CheckoutStep::SetUpstream,
            },
            CheckoutStep::SetUpstream => match failure {
                Some(text) => {
                    let local = match &self.local_name {
                        Some(l) => l.clone(),
                        None => String::new(),
                    };
                    let mut message = quote("Can't set upstream of new local '", local.as_str(), "' branch branch: ");
                    message.append(text.as_str());
                    self.fail("Can't set upstream of branch", message);
                },
                None => self.step = CheckoutStep::CheckoutTree,
            },
            CheckoutStep::CheckoutTree => match failure {
                Some(text) => {
                    let mut message = quote("Can't checkout '", self.branch_name.as_str(), "' branch: ");
                    message.append(text.as_str());
                    self.fail("Can't checkout branch", message);
                },
                None => self.step = CheckoutStep::ReadReferenceName,
            },
            CheckoutStep::ReadReferenceName => {},
            CheckoutStep::SetHead => match failure {
                Some(text) => {
                    let reference = match &self.reference {
                        Some(r) => r.clone(),
                        None => String::new(),
                    };
                    let mut message = quote("Can't set head to '", reference.as_str(), "' branch: ");
                    message.append(text.as_str());
                    self.fail("Can't checkout branch", message);
                },
                None => self.step = CheckoutStep::Finished,
            },
            CheckoutStep::Finished => {},
        }
    }

    /// How the finished checkout went: its alert when it failed.
    pub fn into_outcome(self) -> (outcome: Result<(), Alert>)
        requires
            self.step == CheckoutStep::Finished,
        ensures
            match outcome {
                Ok(()) => self.alert is None,
                Err(a) => self.alert == Some(a),
            },
    {
        match self.alert {
            Some(a) => Err(a),
            None => Ok(()),
        }
    }
}

} // verus!
