//! The calls that this library makes into std and outside crates whose
//! behaviour Verus does not know, each with the contract that it is trusted to
//! meet.
use vstd::prelude::*;
use crate::events::KeyCode;
use crate::widgets::Area;

verus! {

/// The Unicode lowercase mapping of a string, as std's `str::to_lowercase`
/// computes it.
pub uninterp spec fn lowercase(s: Seq<char>) -> Seq<char>;

/// Calls std's `str::to_lowercase`; its result depends on the string alone.
#[verifier::external_body]
pub(crate) fn to_lowercase(s: &str) -> (lower: String)
    ensures
        lower@ == lowercase(s@),
{
    s.to_lowercase()
}

/// Calls std's `String::push`, documented to append the character to the end.
#[verifier::external_body]
pub(crate) fn push_char(s: &mut String, c: char)
    ensures
        final(s)@ == old(s)@.push(c),
{
    s.push(c);
}

/// Calls std's `String::pop`, documented to remove the last character and
/// return it, or to return `None` when the string is empty.
#[verifier::external_body]
pub(crate) fn pop_char(s: &mut String) -> (c: Option<char>)
    ensures
        old(s)@.len() == 0 ==> c is None && final(s)@ == old(s)@,
        old(s)@.len() > 0 ==> c == Some(old(s)@.last()) && final(s)@ == old(s)@.drop_last(),
{
    s.pop()
}

/// The selected row after ratatui's `TableState::select_next`.
pub open spec fn next_selection(selected: Option<usize>) -> Option<usize> {
    match selected {
        None => Some(0),
        Some(i) => Some(if i == usize::MAX { i } else { (i + 1) as usize }),
    }
}

/// The selected row after ratatui's `TableState::select_previous`.
pub open spec fn previous_selection(selected: Option<usize>) -> Option<usize> {
    match selected {
        None => Some(usize::MAX),
        Some(i) => Some(if i == 0 { 0 } else { (i - 1) as usize }),
    }
}

/// Calls ratatui's `TableState::select_next` on a table state with the given
/// offset and selection, and gives back the state's offset and selection.
/// Its source selects `Some(0)` when nothing was selected and the row after the
/// selected one otherwise (saturating), through `select`, which keeps the
/// offset when the new selection is `Some`.
#[verifier::external_body]
pub(crate) fn table_select_next(offset: usize, selected: Option<usize>) -> (state: (usize, Option<usize>))
    ensures
        state == (offset, next_selection(selected)),
{
    let mut table = ratatui::widgets::TableState::default().with_offset(offset).with_selected(selected);
    table.select_next();
    (table.offset(), table.selected())
}

/// Calls ratatui's `TableState::select_previous` on a table state with the
/// given offset and selection, and gives back the state's offset and selection.
/// Its source selects `Some(usize::MAX)` when nothing was selected and the row
/// before the selected one otherwise (saturating), keeping the offset.
#[verifier::external_body]
pub(crate) fn table_select_previous(offset: usize, selected: Option<usize>) -> (state: (usize, Option<usize>))
    ensures
        state == (offset, previous_selection(selected)),
{
    let mut table = ratatui::widgets::TableState::default().with_offset(offset).with_selected(selected);
    table.select_previous();
    (table.offset(), table.selected())
}

/// Integer division rounding toward zero, as Rust's `/` on integers does.
pub open spec fn trunc_div(a: int, b: int) -> int {
    if a >= 0 { a / b } else { -((-a) / b) }
}

/// Whether chrono's `TimeDelta::try_seconds` accepts this many seconds.
pub open spec fn within_time_delta(seconds: int) -> bool {
    -(i64::MAX / 1000) <= seconds <= i64::MAX / 1000
}

/// Calls chrono's `TimeDelta::num_weeks` on a duration of `seconds` whole
/// seconds. Its source divides the whole days by 7, and the whole days are
/// the seconds divided by 86400, both with Rust's `/`.
#[verifier::external_body]
pub(crate) fn whole_weeks(seconds: i64) -> (weeks: i64)
    requires
        within_time_delta(seconds as int),
    ensures
        weeks as int == trunc_div(trunc_div(seconds as int, 86400), 7),
{
    chrono::TimeDelta::seconds(seconds).num_weeks()
}

/// Calls chrono's `TimeDelta::num_days`: the whole seconds divided by 86400
/// with Rust's `/`, as its source shows.
#[verifier::external_body]
pub(crate) fn whole_days(seconds: i64) -> (days: i64)
    requires
        within_time_delta(seconds as int),
    ensures
        days as int == trunc_div(seconds as int, 86400),
{
    chrono::TimeDelta::seconds(seconds).num_days()
}

/// Calls chrono's `TimeDelta::num_hours`: the whole seconds divided by 3600
/// with Rust's `/`, as its source shows.
#[verifier::external_body]
pub(crate) fn whole_hours(seconds: i64) -> (hours: i64)
    requires
        within_time_delta(seconds as int),
    ensures
        hours as int == trunc_div(seconds as int, 3600),
{
    chrono::TimeDelta::seconds(seconds).num_hours()
}

/// Calls chrono's `TimeDelta::num_minutes`: the whole seconds divided by 60
/// with Rust's `/`, as its source shows.
#[verifier::external_body]
pub(crate) fn whole_minutes(seconds: i64) -> (minutes: i64)
    requires
        within_time_delta(seconds as int),
    ensures
        minutes as int == trunc_div(seconds as int, 60),
{
    chrono::TimeDelta::seconds(seconds).num_minutes()
}

} // verus!

verus! {

/// The character that crossterm's `KeyCode::as_char` gives for a key: its
/// source returns the character of a `Char` key and `None` for every other key.
pub open spec fn key_char(code: KeyCode) -> Option<char> {
    match code {
        KeyCode::Char(c) => Some(c),
        _ => None,
    }
}

/// Calls crossterm's `KeyCode::as_char` on the crossterm key that `code`
/// stands for; `Other` stands for crossterm's `Null` key.
#[verifier::external_body]
pub(crate) fn char_of_key(code: KeyCode) -> (c: Option<char>)
    ensures
        c == key_char(code),
{
    let key = match code {
        KeyCode::Char(c) => crossterm::event::KeyCode::Char(c),
        KeyCode::Enter => crossterm::event::KeyCode::Enter,
        KeyCode::Esc => crossterm::event::KeyCode::Esc,
        KeyCode::Backspace => crossterm::event::KeyCode::Backspace,
        KeyCode::Delete => crossterm::event::KeyCode::Delete,
        KeyCode::Up => crossterm::event::KeyCode::Up,
        KeyCode::Down => crossterm::event::KeyCode::Down,
        KeyCode::Other => crossterm::event::KeyCode::Null,
    };
    key.as_char()
}

} // verus!

verus! {

/// The rows that ratatui's `Layout::vertical` with one `Percentage(percent)`
/// constraint and `Flex::Center` gives for the rectangle `(x, y, width,
/// height)`, as `(x, y, width, height)`.
pub uninterp spec fn centered_rows(x: u16, y: u16, width: u16, height: u16, percent: u16) -> (u16, u16, u16, u16);

/// The columns that ratatui's `Layout::horizontal` with one
/// `Percentage(percent)` constraint and `Flex::Center` gives for the
/// rectangle `(x, y, width, height)`, as `(x, y, width, height)`.
pub uninterp spec fn centered_columns(x: u16, y: u16, width: u16, height: u16, percent: u16) -> (u16, u16, u16, u16);

/// Calls ratatui's `Layout::areas` on a vertical layout of one percentage,
/// centered; the solver's result depends on the rectangle and the percentage
/// alone. The only required constraints that ratatui gives
/// its solver are the bounds of the area and the order of the edges, which
/// can always be met, so the split does not fail.
#[verifier::external_body]
pub(crate) fn center_vertically(area: Area, percent: u16) -> (rows: Area)
    ensures
        (rows.x, rows.y, rows.width, rows.height) == centered_rows(area.x, area.y, area.width, area.height, percent),
{
    let rect = ratatui::layout::Rect { x: area.x, y: area.y, width: area.width, height: area.height };
    let [r] = ratatui::layout::Layout::vertical([ratatui::layout::Constraint::Percentage(percent)]).flex(ratatui::layout::Flex::Center).areas(rect);
    Area { x: r.x, y: r.y, width: r.width, height: r.height }
}

/// Calls ratatui's `Layout::areas` on a horizontal layout of one percentage,
/// centered; the solver's result depends on the rectangle and the percentage
/// alone. The only required constraints that ratatui gives
/// its solver are the bounds of the area and the order of the edges, which
/// can always be met, so the split does not fail.
#[verifier::external_body]
pub(crate) fn center_horizontally(area: Area, percent: u16) -> (columns: Area)
    ensures
        (columns.x, columns.y, columns.width, columns.height) == centered_columns(area.x, area.y, area.width, area.height, percent),
{
    let rect = ratatui::layout::Rect { x: area.x, y: area.y, width: area.width, height: area.height };
    let [r] = ratatui::layout::Layout::horizontal([ratatui::layout::Constraint::Percentage(percent)]).flex(ratatui::layout::Flex::Center).areas(rect);
    Area { x: r.x, y: r.y, width: r.width, height: r.height }
}

} // verus!

verus! {

/// The first second of chrono's dates, -262143-01-01 00:00:00 UTC, in
/// seconds since the Unix epoch.
pub open spec fn first_utc_second() -> int {
    -8334601228800
}

/// The last second of chrono's dates, +262142-12-31 23:59:59 UTC, in seconds
/// since the Unix epoch.
pub open spec fn last_utc_second() -> int {
    8210266876799
}

/// Whether chrono's `Utc.timestamp_opt(seconds, 0)` gives a single date and
/// time: whether the moment lies within chrono's range of dates, whose years
/// run from `MIN_YEAR` (-262143) to `MAX_YEAR` (+262142).
pub open spec fn utc_timestamp_valid(seconds: i64) -> bool {
    first_utc_second() <= seconds <= last_utc_second()
}

/// Calls chrono's `TimeZone::timestamp_opt` for `Utc` with no nanoseconds
/// and tells whether `single` finds one date and time. Its source
/// (`DateTime::from_timestamp`) takes the days since the epoch, rounding down,
/// and accepts them when the date falls within its years; the first and last
/// seconds of that range are the bounds of [`utc_timestamp_valid`].
#[verifier::external_body]
pub(crate) fn utc_timestamp_exists(seconds: i64) -> (valid: bool)
    ensures
        valid == utc_timestamp_valid(seconds),
{
    chrono::TimeZone::timestamp_opt(&chrono::Utc, seconds, 0).single().is_some()
}

} // verus!
