use peak::screen::{help_rows, help_title, screen_popup_area, HelpRowKind, Layer, POPUP_PERCENT};
use peak::app::App;
use peak::checkout::{remote_to_local_name, Checkout, CheckoutStep, StepOutcome};
use peak::events::{Event, Key, KeyCode, LoadReason};
use peak::structs::{Alert, Branch, BranchKind};
use peak::widgets::{popup_area, Area};

fn branch(name: &str, kind: BranchKind, time: i64, current: bool) -> Branch {
    Branch {
        name: name.to_string(),
        branch_type: kind,
        author: format!("author of {name}"),
        current,
        last_commit_at: time,
    }
}

fn key(c: char) -> Event {
    Event::Press(Key { code: KeyCode::Char(c), ctrl: false, shift: false })
}

fn loaded() -> App {
    let (mut app, _) = App::new(30);
    app.finish_load(
        LoadReason::Startup,
        vec![
            branch("main", BranchKind::Local, 300, true),
            branch("topic", BranchKind::Local, 200, false),
            branch("fix", BranchKind::Local, 100, false),
        ],
    );
    app
}

#[test]
fn list_rows_show_cursor_marks_and_branches() {
    let mut app = loaded();
    app.handle_event(key('j'));
    app.handle_event(key('x'));
    let rows = app.list_rows();
    assert_eq!(rows.len(), 3);
    assert!(rows[0].current && !rows[0].selected && !rows[0].marked);
    assert!(rows[1].selected && rows[1].marked && !rows[1].current);
    assert_eq!(rows[1].name, "topic");
    assert_eq!(rows[1].author, "author of topic");
    assert_eq!(rows[2].last_commit_at, 100);
}

#[test]
fn empty_list_message_depends_on_the_mode() {
    let mut app = loaded();
    assert_eq!(
        app.empty_list_message(),
        "No branches found. Press 'f' to edit the filter or 'R' to reset it."
    );
    app.handle_event(key('f'));
    assert_eq!(app.empty_list_message(), "No branches found.");
}

#[test]
fn status_line_counts_branches_and_marks() {
    let mut app = loaded();
    let line = app.status_line().unwrap();
    assert_eq!(line.left, "3 branches");
    assert_eq!(line.right, "Press (h) for help");
    assert!(!line.editing);
    app.handle_event(key('j'));
    app.handle_event(key('x'));
    assert_eq!(app.status_line().unwrap().left, "1/3 branches selected");
}

#[test]
fn status_line_shows_the_filter() {
    let mut app = loaded();
    app.handle_event(key('f'));
    app.handle_event(key('t'));
    let line = app.status_line().unwrap();
    assert_eq!(line.left, "Filter branches (1/3): t");
    assert_eq!(line.right, "Press (Enter) to submit");
    assert!(line.editing);
    app.handle_event(Event::Press(Key { code: KeyCode::Enter, ctrl: false, shift: false }));
    let line = app.status_line().unwrap();
    assert_eq!(line.left, "Filter branches (1/3): t");
    assert!(!line.editing);
}

#[test]
fn status_line_hides_while_confirming() {
    let mut app = loaded();
    app.handle_event(key('j'));
    app.handle_event(key('d'));
    assert!(app.status_line().is_none());
    let popup = app.confirm_popup().unwrap();
    assert_eq!(popup.title, " Confirm deletion ");
    assert_eq!(popup.content, "Are you sure you want to delete 1 branch?");
}

#[test]
fn alert_popup_shows_the_alert() {
    let mut app = loaded();
    assert!(app.alert_popup().is_none());
    assert!(app.confirm_popup().is_none());
    app.finish_checkout(Err(Alert { title: "T".to_string(), message: "M".to_string() }), false);
    let popup = app.alert_popup().unwrap();
    assert_eq!((popup.title.as_str(), popup.content.as_str()), ("T", "M"));
}

#[test]
fn popup_area_is_centered() {
    let area = Area { x: 0, y: 0, width: 100, height: 40 };
    assert_eq!(popup_area(area, 50, 50), Area { x: 25, y: 10, width: 50, height: 20 });
    let area = Area { x: 10, y: 5, width: 20, height: 10 };
    assert_eq!(popup_area(area, 100, 100), area);
}

#[test]
fn remote_names_map_to_local_names() {
    assert_eq!(remote_to_local_name("origin/feature/x").as_deref(), Some("feature/x"));
    assert_eq!(remote_to_local_name("refs/remotes/origin/main").as_deref(), Some("main"));
    assert_eq!(remote_to_local_name("main"), None);
    assert_eq!(remote_to_local_name("refs/remotes/main"), None);
    assert_eq!(remote_to_local_name("origin/").as_deref(), Some(""));
}

#[test]
fn checkout_of_a_local_branch() {
    let b = branch("topic", BranchKind::Local, 1, false);
    let mut c = Checkout::start(&b);
    assert_eq!(c.step, CheckoutStep::FindBranch);
    c.advance(StepOutcome::Done);
    assert_eq!(c.step, CheckoutStep::PeelToCommit);
    c.advance(StepOutcome::Done);
    assert_eq!(c.step, CheckoutStep::CheckoutTree);
    c.advance(StepOutcome::Done);
    assert_eq!(c.step, CheckoutStep::ReadReferenceName);
    c.advance(StepOutcome::Named("refs/heads/topic".to_string()));
    assert_eq!(c.step, CheckoutStep::SetHead);
    c.advance(StepOutcome::Done);
    assert_eq!(c.step, CheckoutStep::Finished);
    assert!(c.into_outcome().is_ok());
}

#[test]
fn checkout_of_a_remote_branch_creates_the_local_one() {
    let b = branch("origin/topic", BranchKind::Remote, 1, false);
    let mut c = Checkout::start(&b);
    c.advance(StepOutcome::Done);
    c.advance(StepOutcome::Done);
    assert_eq!(c.step, CheckoutStep::FindLocalBranch);
    assert_eq!(c.local_name.as_deref(), Some("topic"));
    c.advance(StepOutcome::Failed("not found".to_string()));
    assert_eq!(c.step, CheckoutStep::CreateLocalBranch);
    c.advance(StepOutcome::Done);
    assert_eq!(c.step, CheckoutStep::SetUpstream);
    c.advance(StepOutcome::Failed("no remote".to_string()));
    assert_eq!(c.step, CheckoutStep::Finished);
    let alert = c.into_outcome().unwrap_err();
    assert_eq!(alert.title, "Can't set upstream of branch");
    assert_eq!(alert.message, "Can't set upstream of new local 'topic' branch branch: no remote");
}

#[test]
fn checkout_failures_leave_alerts() {
    let b = branch("topic", BranchKind::Local, 1, false);
    let mut c = Checkout::start(&b);
    c.advance(StepOutcome::Failed("missing".to_string()));
    let alert = c.into_outcome().unwrap_err();
    assert_eq!(alert.title, "Can't checkout branch");
    assert_eq!(alert.message, "Can't find 'topic' branch");

    let mut c = Checkout::start(&b);
    c.advance(StepOutcome::Done);
    c.advance(StepOutcome::Failed("bad object".to_string()));
    assert_eq!(c.into_outcome().unwrap_err().message, "Can't get commit for 'topic' branch: bad object");

    let mut c = Checkout::start(&b);
    c.advance(StepOutcome::Done);
    c.advance(StepOutcome::Done);
    c.advance(StepOutcome::Failed("conflict".to_string()));
    assert_eq!(c.into_outcome().unwrap_err().message, "Can't checkout 'topic' branch: conflict");

    let mut c = Checkout::start(&b);
    c.advance(StepOutcome::Done);
    c.advance(StepOutcome::Done);
    c.advance(StepOutcome::Done);
    c.advance(StepOutcome::Named("refs/heads/topic".to_string()));
    c.advance(StepOutcome::Failed("locked".to_string()));
    assert_eq!(
        c.into_outcome().unwrap_err().message,
        "Can't set head to 'refs/heads/topic' branch: locked"
    );

    let r = branch("lonely", BranchKind::Remote, 1, false);
    let mut c = Checkout::start(&r);
    c.advance(StepOutcome::Done);
    c.advance(StepOutcome::Done);
    let alert = c.into_outcome().unwrap_err();
    assert_eq!(alert.title, "Can't normalize branch name");
    assert_eq!(alert.message, "Can't find normalize branch name. Not a remote branch?");

    let r = branch("origin/x", BranchKind::Remote, 1, false);
    let mut c = Checkout::start(&r);
    c.advance(StepOutcome::Done);
    c.advance(StepOutcome::Done);
    c.advance(StepOutcome::Failed("no".to_string()));
    c.advance(StepOutcome::Failed("exists".to_string()));
    assert_eq!(c.into_outcome().unwrap_err().message, "Can't set head to 'x' branch: exists");
}

#[test]
fn checkout_of_a_remote_branch_with_an_existing_local_one() {
    let b = branch("origin/topic", BranchKind::Remote, 1, false);
    let mut c = Checkout::start(&b);
    c.advance(StepOutcome::Done);
    c.advance(StepOutcome::Done);
    c.advance(StepOutcome::Done);
    assert_eq!(c.step, CheckoutStep::CheckoutTree);
}

#[test]
fn help_rows_list_every_key() {
    let rows = help_rows();
    assert_eq!(rows.len(), 24);
    assert_eq!(rows[0].keys, "Help view");
    assert_eq!(rows[0].kind, HelpRowKind::Section { spaced: false });
    assert_eq!(rows[1].kind, HelpRowKind::ColumnTitles);
    assert_eq!(rows[15].keys, "R");
    assert_eq!(rows[15].description, "Reset branch filter");
    assert_eq!(rows[23].description, "Discard filter");
}

#[test]
fn the_help_view_shows_only_the_help() {
    let mut app = loaded();
    assert_eq!(app.layer(), Layer::List);
    app.handle_event(key('h'));
    assert_eq!(app.layer(), Layer::Help);
    assert!(app.status_line().is_none());
    app.finish_checkout(Err(Alert { title: "T".to_string(), message: "M".to_string() }), false);
    assert!(app.alert_popup().is_none());
    assert!(app.confirm_popup().is_none());
    assert_eq!(help_title(), "Help reference");
}

#[test]
fn popups_take_half_the_screen() {
    assert_eq!(POPUP_PERCENT, 50);
    let area = Area { x: 0, y: 0, width: 80, height: 24 };
    assert_eq!(screen_popup_area(area), Area { x: 20, y: 6, width: 40, height: 12 });
}
