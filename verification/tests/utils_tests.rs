use peak::structs::{read_branch, BranchKind};
use peak::utils::{count_string, decimal_string, pluralize, time_ago_in_words};

#[test]
fn pluralize_one_is_singular() {
    assert_eq!(pluralize(1, "branch", "branches"), "1 branch");
}

#[test]
fn pluralize_other_counts_are_plural() {
    assert_eq!(pluralize(0, "branch", "branches"), "0 branches");
    assert_eq!(pluralize(3, "branch", "branches"), "3 branches");
    assert_eq!(pluralize(-1, "year", "years"), "-1 years");
    assert_eq!(pluralize(12345, "day", "days"), "12345 days");
}

#[test]
fn decimal_of_extremes() {
    assert_eq!(decimal_string(0), "0");
    assert_eq!(decimal_string(i64::MIN), "-9223372036854775808");
    assert_eq!(decimal_string(i64::MAX), "9223372036854775807");
    assert_eq!(count_string(4096), "4096");
}

#[test]
fn time_ago_under_a_minute_is_just_now() {
    assert_eq!(time_ago_in_words(0), "just now");
    assert_eq!(time_ago_in_words(59), "just now");
    assert_eq!(time_ago_in_words(-59), "just now");
}

#[test]
fn time_ago_units() {
    assert_eq!(time_ago_in_words(60), "1 minute ago");
    assert_eq!(time_ago_in_words(150), "2 minutes ago");
    assert_eq!(time_ago_in_words(3600), "1 hour ago");
    assert_eq!(time_ago_in_words(23 * 3600), "23 hours ago");
    assert_eq!(time_ago_in_words(2 * 86400), "2 days ago");
    assert_eq!(time_ago_in_words(7 * 86400), "1 week ago");
    assert_eq!(time_ago_in_words(27 * 86400), "3 weeks ago");
    assert_eq!(time_ago_in_words(28 * 86400), "1 month ago");
    assert_eq!(time_ago_in_words(51 * 7 * 86400), "12 months ago");
    assert_eq!(time_ago_in_words(52 * 7 * 86400), "1 year ago");
    assert_eq!(time_ago_in_words(3 * 52 * 7 * 86400), "3 years ago");
}

#[test]
fn time_ago_in_the_future_counts_negative_minutes() {
    assert_eq!(time_ago_in_words(-120), "-2 minutes ago");
    assert_eq!(time_ago_in_words(-3 * 86400), "-4320 minutes ago");
}

#[test]
fn branches_need_a_name_an_author_and_a_valid_time() {
    let b = read_branch(Some("main".to_string()), BranchKind::Local, Some("Ada".to_string()), true, Some(0))
        .unwrap();
    assert_eq!((b.name.as_str(), b.author.as_str(), b.current, b.last_commit_at), ("main", "Ada", true, 0));
    assert!(read_branch(None, BranchKind::Local, Some("Ada".to_string()), false, Some(0)).is_none());
    assert!(read_branch(Some("x".to_string()), BranchKind::Remote, None, false, Some(0)).is_none());
    assert!(read_branch(Some("x".to_string()), BranchKind::Remote, Some("A".to_string()), false, None).is_none());
    assert!(read_branch(Some("x".to_string()), BranchKind::Local, Some("A".to_string()), false, Some(i64::MAX))
        .is_none());
}

#[test]
fn commit_times_are_accepted_within_chrono_dates() {
    let at = |t: i64| read_branch(Some("x".to_string()), BranchKind::Local, Some("A".to_string()), false, Some(t));
    assert!(at(8210266876799).is_some());
    assert!(at(8210266876800).is_none());
    assert!(at(-8334601228800).is_some());
    assert!(at(-8334601228801).is_none());
}
