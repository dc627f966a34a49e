//! When the dashboard redraws and when it refreshes what it shows.
use vstd::prelude::*;
use crate::subway::ProcessedData;
use crate::update::opt_view;

verus! {

/// Seconds after which the display is redrawn even when nothing changed, and
/// after which a weather forecast is fetched again.
pub const REDRAW_INTERVAL_SECS: i64 = 1800;

/// Seconds after which an air-quality reading is fetched again.
pub const AIR_QUALITY_INTERVAL_SECS: i64 = 60;

/// The display is redrawn when the countdown changed and the new data is not
/// older than what is shown; else when it was never drawn; else when the last
/// redraw is more than `REDRAW_INTERVAL_SECS` old.
pub open spec fn redraw_due(prev: ProcessedData, next: ProcessedData, last_redraw: Option<i64>, now: i64) -> bool {
    if opt_view(prev.big_countdown) != opt_view(next.big_countdown) && next.data_timestamp
        >= prev.data_timestamp {
        true
    } else {
        match last_redraw {
            None => true,
            Some(t) => now - t > REDRAW_INTERVAL_SECS,
        }
    }
}

fn same_text(a: &Option<String>, b: &Option<String>) -> (r: bool)
    ensures
        r == (opt_view(*a) == opt_view(*b)),
{
    match (a, b) {
        (Some(x), Some(y)) => *x == *y,
        (None, None) => true,
        _ => false,
    }
}

/// Whether the display is to be redrawn at `now`, showing `next` where it
/// showed `prev`, last redrawn at `last_redraw` (never, if `None`).
pub fn needs_redraw(prev: &ProcessedData, next: &ProcessedData, last_redraw: Option<i64>, now: i64) -> (r: bool)
    ensures
        r == redraw_due(*prev, *next, last_redraw, now),
{
    let went_back_in_time = next.data_timestamp < prev.data_timestamp;
    if !same_text(&prev.big_countdown, &next.big_countdown) && !went_back_in_time {
        true
    } else {
        match last_redraw {
            None => true,
            Some(t) => now as i128 - t as i128 > REDRAW_INTERVAL_SECS as i128,
        }
    }
}

/// Whether data fetched at `last_fetch` (never, if `None`) is to be fetched
/// again at `now`: when it is more than `max_age` seconds old.
pub fn refresh_due(last_fetch: Option<i64>, now: i64, max_age: i64) -> (r: bool)
    ensures
        r == match last_fetch {
            None => true,
            Some(t) => now - t > max_age,
        },
{
    match last_fetch {
        None => true,
        Some(t) => now as i128 - t as i128 > max_age as i128,
    }
}

} // verus!
