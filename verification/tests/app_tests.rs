use peak::app::App;
use peak::events::{Action, Event, Key, KeyCode, LoadReason};
use peak::structs::{Branch, BranchKind, DisplayMode};

fn branch(name: &str, time: i64, current: bool) -> Branch {
    Branch {
        name: name.to_string(),
        branch_type: BranchKind::Local,
        author: "Ada".to_string(),
        current,
        last_commit_at: time,
    }
}

fn key(c: char) -> Event {
    Event::Press(Key { code: KeyCode::Char(c), ctrl: false, shift: false })
}

fn ctrl(c: char) -> Event {
    Event::Press(Key { code: KeyCode::Char(c), ctrl: true, shift: false })
}

fn press(code: KeyCode) -> Event {
    Event::Press(Key { code, ctrl: false, shift: false })
}

fn handle(app: &mut App, event: Event) -> Action {
    app.handle_event(event)
}

/// An application of `height` rows that has read `n` branches, newest first
/// named b0, b1, ...; b0 is checked out.
fn app_with(n: usize, height: u16) -> App {
    let (mut app, action) = App::new(height);
    assert_eq!(action, Action::Load(LoadReason::Startup));
    let entries = (0..n).map(|i| branch(&format!("b{i}"), 1000 - i as i64, i == 0)).collect();
    app.finish_load(LoadReason::Startup, entries);
    app
}

fn names(app: &App) -> Vec<String> {
    app.branches.included_indexes.iter().map(|&i| app.branches.entries[i].name.clone()).collect()
}

#[test]
fn new_app_starts_on_local_branches_with_the_cursor_on_top() {
    let (app, action) = App::new(30);
    assert_eq!(action, Action::Load(LoadReason::Startup));
    assert_eq!(app.cursor_index, Some(0));
    assert_eq!(app.branches.branch_type, Some(BranchKind::Local));
    assert_eq!(app.display_mode, DisplayMode::Normal);
    assert!(app.branches.entries.is_empty());
}

#[test]
fn loading_orders_newest_first_and_keeps_ties_in_order() {
    let (mut app, _) = App::new(30);
    let entries = vec![
        branch("old", 10, false),
        branch("tie-a", 50, false),
        branch("new", 90, true),
        branch("tie-b", 50, false),
    ];
    app.finish_load(LoadReason::Startup, entries);
    assert_eq!(names(&app), vec!["new", "tie-a", "tie-b", "old"]);
}

#[test]
fn refresh_lists_the_new_branches_and_resets_a_cursor_past_the_end() {
    let mut app = app_with(5, 30);
    app.cursor_index = Some(4);
    app.branches.marked_indexes = vec![3];
    app.finish_load(LoadReason::Refresh, vec![branch("x", 1, false), branch("y", 2, false)]);
    assert_eq!(app.cursor_index, Some(0));
    assert_eq!(names(&app), vec!["y", "x"]);
    assert!(app.branches.marked_indexes.is_empty());
}

#[test]
fn refresh_counts_all_branches_for_the_cursor() {
    let mut app = app_with(5, 30);
    handle(&mut app, key('f'));
    handle(&mut app, key('4'));
    handle(&mut app, press(KeyCode::Enter));
    assert_eq!(names(&app), vec!["b4"]);
    app.cursor_index = Some(3);
    app.finish_load(LoadReason::Refresh, (0..5).map(|i| branch(&format!("b{i}"), 1000 - i, i == 0)).collect());
    assert_eq!(app.cursor_index, Some(3));
    app.finish_load(LoadReason::Refresh, vec![branch("b4", 1, false)]);
    assert_eq!(app.cursor_index, Some(0));
}

#[test]
fn unchanged_reload_keeps_everything() {
    let mut app = app_with(4, 30);
    handle(&mut app, key('j'));
    handle(&mut app, key('x'));
    handle(&mut app, key('j'));
    handle(&mut app, key('j'));
    handle(&mut app, key('x'));
    assert_eq!(app.branches.marked_indexes, vec![1, 3]);
    app.finish_load(LoadReason::Refresh, (0..4).map(|i| branch(&format!("b{i}"), 1000 - i, i == 0)).collect());
    assert_eq!(app.branches.marked_indexes, vec![1, 3]);
    assert_eq!(app.cursor_index, Some(3));
    assert_eq!(names(&app), vec!["b0", "b1", "b2", "b3"]);
}

#[test]
fn marks_follow_their_branches_across_a_reload() {
    let mut app = app_with(3, 30);
    handle(&mut app, key('j'));
    handle(&mut app, key('x'));
    handle(&mut app, key('j'));
    handle(&mut app, key('x'));
    assert_eq!(app.deletion_targets(), vec!["b1".to_string(), "b2".to_string()]);
    assert_eq!(handle(&mut app, key('t')), Action::Load(LoadReason::Toggle));
    app.finish_load(
        LoadReason::Toggle,
        vec![branch("other", 5, false), branch("b0", 4, true), branch("b2", 3, false)],
    );
    assert_eq!(app.branches.marked_indexes, vec![2]);
    handle(&mut app, key('d'));
    assert_eq!(handle(&mut app, key('y')), Action::DeleteMarked);
    assert_eq!(app.deletion_targets(), vec!["b2".to_string()]);
}

#[test]
fn moving_down_wraps_to_the_top_and_up_wraps_to_the_bottom() {
    let mut app = app_with(3, 30);
    handle(&mut app, key('j'));
    handle(&mut app, press(KeyCode::Down));
    assert_eq!(app.cursor_index, Some(2));
    handle(&mut app, key('j'));
    assert_eq!(app.cursor_index, Some(0));
    handle(&mut app, key('k'));
    assert_eq!(app.cursor_index, Some(2));
    handle(&mut app, press(KeyCode::Up));
    assert_eq!(app.cursor_index, Some(1));
}

#[test]
fn moving_down_scrolls_past_the_bottom_of_the_screen() {
    // 6 rows: 4 list rows as the step down counts them.
    let mut app = app_with(10, 6);
    for _ in 0..4 {
        handle(&mut app, key('j'));
    }
    assert_eq!(app.cursor_index, Some(4));
    assert_eq!(app.branches.state.offset, 1);
    for _ in 0..5 {
        handle(&mut app, key('j'));
    }
    assert_eq!(app.cursor_index, Some(9));
    assert_eq!(app.branches.state.offset, 5);
    handle(&mut app, key('j'));
    assert_eq!((app.cursor_index, app.branches.state.offset), (Some(0), 0));
    handle(&mut app, key('k'));
    assert_eq!((app.cursor_index, app.branches.state.offset), (Some(9), 5));
}

#[test]
fn jumping_moves_half_a_screen() {
    let mut app = app_with(20, 10);
    handle(&mut app, ctrl('d'));
    assert_eq!(app.cursor_index, Some(4));
    handle(&mut app, ctrl('d'));
    assert_eq!(app.cursor_index, Some(8));
    assert_eq!(app.branches.state.offset, 1);
    handle(&mut app, ctrl('u'));
    assert_eq!(app.cursor_index, Some(4));
    assert_eq!(app.branches.state.offset, 1);
    handle(&mut app, ctrl('u'));
    assert_eq!(app.cursor_index, Some(0));
    assert_eq!(app.branches.state.offset, 0);
}

#[test]
fn jumping_down_near_the_end_goes_to_the_last_branch() {
    let mut app = app_with(12, 10);
    app.cursor_index = Some(10);
    handle(&mut app, ctrl('d'));
    assert_eq!(app.cursor_index, Some(11));
    assert_eq!(app.branches.state.offset, 3);
}

#[test]
fn jumping_down_in_a_short_list_goes_to_the_last_branch() {
    let mut app = app_with(3, 24);
    handle(&mut app, ctrl('d'));
    assert_eq!(app.cursor_index, Some(2));
    assert_eq!(app.branches.state.offset, 0);
}

#[test]
fn keys_on_an_empty_list_do_nothing() {
    let mut app = app_with(0, 24);
    for event in [press(KeyCode::Enter), key('x'), key('d'), ctrl('d'), ctrl('u'), key('j'), key('k')] {
        assert_eq!(handle(&mut app, event), Action::Continue);
        assert_eq!(app.display_mode, DisplayMode::Normal);
        assert!(app.branches.marked_indexes.is_empty());
    }
    assert_eq!(app.cursor_index, Some(0));
}

#[test]
fn a_tiny_terminal_does_not_break_the_moves() {
    let mut app = app_with(5, 0);
    handle(&mut app, key('k'));
    assert_eq!(app.cursor_index, Some(4));
    handle(&mut app, key('j'));
    assert_eq!(app.cursor_index, Some(0));
    handle(&mut app, ctrl('d'));
    handle(&mut app, ctrl('u'));
    assert!(app.cursor_index.unwrap() < 5);
}

#[test]
fn q_quits_except_in_the_filter() {
    let mut app = app_with(3, 30);
    assert_eq!(handle(&mut app, key('Q')), Action::Quit);
    handle(&mut app, key('h'));
    assert_eq!(handle(&mut app, key('Q')), Action::Quit);
    handle(&mut app, key('q'));
    handle(&mut app, key('f'));
    assert_eq!(handle(&mut app, key('Q')), Action::Continue);
    assert_eq!(app.active_filter.as_deref(), Some("Q"));
    assert!(names(&app).is_empty());
    assert_eq!(handle(&mut app, ctrl('c')), Action::Quit);
}

#[test]
fn filter_typing_and_backspace() {
    let mut app = app_with(12, 30);
    handle(&mut app, key('/'));
    assert_eq!(app.display_mode, DisplayMode::Filter);
    assert_eq!(app.cursor_index, None);
    handle(&mut app, key('B'));
    handle(&mut app, key('1'));
    assert_eq!(app.active_filter.as_deref(), Some("B1"));
    assert_eq!(names(&app), vec!["b1", "b10", "b11"]);
    handle(&mut app, press(KeyCode::Backspace));
    assert_eq!(app.active_filter.as_deref(), Some("B"));
    assert_eq!(names(&app).len(), 12);
    handle(&mut app, press(KeyCode::Other));
    assert_eq!(app.active_filter.as_deref(), Some("B"));
    handle(&mut app, key('7'));
    handle(&mut app, press(KeyCode::Enter));
    assert_eq!(app.display_mode, DisplayMode::Normal);
    assert_eq!(app.cursor_index, Some(0));
    assert_eq!(names(&app), vec!["b7"]);
    handle(&mut app, key('Z'));
    assert_eq!(app.active_filter, None);
    assert_eq!(names(&app).len(), 12);
}

#[test]
fn r_resets_the_filter() {
    let mut app = app_with(12, 30);
    handle(&mut app, key('f'));
    handle(&mut app, key('1'));
    handle(&mut app, key('0'));
    handle(&mut app, press(KeyCode::Enter));
    assert_eq!(names(&app), vec!["b10"]);
    assert_eq!(handle(&mut app, key('R')), Action::Load(LoadReason::Refresh));
    assert_eq!(app.active_filter, None);
    assert_eq!(names(&app).len(), 12);
    app.finish_load(LoadReason::Refresh, vec![branch("b0", 9, true), branch("new", 10, false)]);
    assert_eq!(names(&app), vec!["new", "b0"]);
    assert_eq!(app.cursor_index, Some(0));
}

#[test]
fn filter_ignores_case_of_names() {
    let (mut app, _) = App::new(30);
    app.finish_load(
        LoadReason::Startup,
        vec![branch("Feature/Login", 3, false), branch("main", 2, true), branch("ÉTÉ", 1, false)],
    );
    handle(&mut app, key('f'));
    for c in "feat".chars() {
        handle(&mut app, key(c));
    }
    assert_eq!(names(&app), vec!["Feature/Login"]);
    handle(&mut app, press(KeyCode::Esc));
    handle(&mut app, key('f'));
    handle(&mut app, key('é'));
    assert_eq!(names(&app), vec!["ÉTÉ"]);
}

#[test]
fn filter_escape_drops_the_filter() {
    let mut app = app_with(4, 30);
    handle(&mut app, key('f'));
    handle(&mut app, key('x'));
    assert!(names(&app).is_empty());
    handle(&mut app, press(KeyCode::Enter));
    assert_eq!(app.cursor_index, None);
    handle(&mut app, key('f'));
    handle(&mut app, press(KeyCode::Esc));
    assert_eq!(app.active_filter, None);
    assert_eq!(app.cursor_index, Some(0));
    assert_eq!(names(&app).len(), 4);
}

#[test]
fn marking_toggles_and_skips_the_current_branch() {
    let mut app = app_with(4, 30);
    handle(&mut app, key('x'));
    assert!(app.branches.marked_indexes.is_empty());
    handle(&mut app, key('j'));
    handle(&mut app, key('x'));
    handle(&mut app, key('j'));
    handle(&mut app, key('x'));
    assert_eq!(app.branches.marked_indexes, vec![1, 2]);
    handle(&mut app, key('k'));
    handle(&mut app, key('x'));
    assert_eq!(app.branches.marked_indexes, vec![2]);
    handle(&mut app, key('X'));
    assert!(app.branches.marked_indexes.is_empty());
}

#[test]
fn delete_asks_for_the_cursor_branch_and_cancel_drops_it() {
    let mut app = app_with(3, 30);
    handle(&mut app, key('d'));
    assert_eq!(app.display_mode, DisplayMode::Normal);
    handle(&mut app, key('j'));
    handle(&mut app, key('d'));
    assert_eq!(app.display_mode, DisplayMode::ConfirmDeletion(false));
    assert_eq!(app.branches.marked_indexes, vec![1]);
    handle(&mut app, key('n'));
    assert_eq!(app.display_mode, DisplayMode::Normal);
    assert!(app.branches.marked_indexes.is_empty());
}

#[test]
fn delete_with_marks_asks_and_deletes_them() {
    let mut app = app_with(4, 30);
    handle(&mut app, key('j'));
    handle(&mut app, key('x'));
    handle(&mut app, key('j'));
    handle(&mut app, key('x'));
    handle(&mut app, press(KeyCode::Delete));
    assert_eq!(app.display_mode, DisplayMode::ConfirmDeletion(true));
    handle(&mut app, press(KeyCode::Esc));
    assert_eq!(app.branches.marked_indexes, vec![1, 2]);
    handle(&mut app, key('d'));
    assert_eq!(handle(&mut app, key('y')), Action::DeleteMarked);
    assert_eq!(app.deletion_targets(), vec!["b1".to_string(), "b2".to_string()]);
    assert_eq!(app.finish_deletion(), Action::Load(LoadReason::AfterDeletion));
    assert!(app.branches.marked_indexes.is_empty());
    assert_eq!(app.cursor_index, Some(1));
    assert_eq!(app.display_mode, DisplayMode::Normal);
}

#[test]
fn enter_asks_for_a_checkout_of_the_cursor_branch() {
    let mut app = app_with(3, 30);
    handle(&mut app, key('j'));
    assert_eq!(
        handle(&mut app, press(KeyCode::Enter)),
        Action::Checkout { branch_index: 1, quit_after: false }
    );
    let shifted = Event::Press(Key { code: KeyCode::Enter, ctrl: false, shift: true });
    assert_eq!(handle(&mut app, shifted), Action::Checkout { branch_index: 1, quit_after: true });
    assert_eq!(app.finish_checkout(Ok(()), true), Action::Quit);
    assert_eq!(app.finish_checkout(Ok(()), false), Action::Load(LoadReason::Refresh));
}

#[test]
fn toggling_remote_branches_reloads() {
    let mut app = app_with(3, 30);
    handle(&mut app, key('j'));
    assert_eq!(handle(&mut app, key('t')), Action::Load(LoadReason::Toggle));
    assert_eq!(app.branches.branch_type, None);
    assert_eq!(app.cursor_index, Some(0));
    assert_eq!(handle(&mut app, key('t')), Action::Load(LoadReason::Toggle));
    assert_eq!(app.branches.branch_type, Some(BranchKind::Local));
    assert_eq!(handle(&mut app, press(KeyCode::Esc)), Action::Quit);
}

#[test]
fn load_failures_alert_only_on_refresh() {
    let mut app = app_with(2, 30);
    assert!(app.fail_load(LoadReason::Toggle, "boom".to_string()));
    assert!(app.alert.is_none());
    assert!(!app.fail_load(LoadReason::Refresh, "boom".to_string()));
    let alert = app.alert.as_ref().unwrap();
    assert_eq!(alert.title, "Error fetching branches");
    assert_eq!(alert.message, "An error occurred: boom");
    assert_eq!(handle(&mut app, key('j')), Action::Continue);
    assert_eq!(app.cursor_index, Some(0));
    handle(&mut app, key('q'));
    assert!(app.alert.is_none());
}

#[test]
fn help_view_moves_its_selection() {
    let mut app = app_with(2, 30);
    handle(&mut app, key('h'));
    assert_eq!(app.display_mode, DisplayMode::Help);
    handle(&mut app, key('j'));
    assert_eq!(app.help_state.selected, Some(0));
    handle(&mut app, press(KeyCode::Down));
    assert_eq!(app.help_state.selected, Some(2 - 1));
    handle(&mut app, key('k'));
    handle(&mut app, key('k'));
    assert_eq!(app.help_state.selected, Some(0));
    handle(&mut app, key('h'));
    assert_eq!(app.display_mode, DisplayMode::Normal);
    handle(&mut app, key('h'));
    app.help_state.selected = None;
    handle(&mut app, key('k'));
    assert_eq!(app.help_state.selected, Some(usize::MAX));
}

#[test]
fn resize_changes_the_height() {
    let mut app = app_with(2, 30);
    assert_eq!(handle(&mut app, Event::Resize(12)), Action::Continue);
    assert_eq!(app.viewport_height, 12);
}

#[test]
fn help_round_trip_leaves_the_list_alone() {
    let mut app = app_with(5, 30);
    handle(&mut app, key('j'));
    handle(&mut app, key('h'));
    handle(&mut app, key('q'));
    assert_eq!(app.display_mode, DisplayMode::Normal);
    assert_eq!(app.cursor_index, Some(1));
}

#[test]
fn down_then_up_comes_back() {
    let mut app = app_with(4, 30);
    for start in 0..4 {
        app.cursor_index = Some(start);
        handle(&mut app, key('j'));
        handle(&mut app, key('k'));
        assert_eq!(app.cursor_index, Some(start));
        handle(&mut app, key('k'));
        handle(&mut app, key('j'));
        assert_eq!(app.cursor_index, Some(start));
    }
}

#[test]
fn keys_do_not_change_the_branches() {
    let mut app = app_with(3, 30);
    for c in ['j', 'x', 'd', 'n', 'f', 'b', 'Z', 'h', 'k', 'q'] {
        handle(&mut app, key(c));
    }
    assert_eq!(app.branches.entries.len(), 3);
    assert_eq!(app.branches.entries[0].name, "b0");
    assert_eq!(app.branches.branch_type, Some(BranchKind::Local));
}
