//! The station summary that the display is drawn from.
use vstd::prelude::*;

verus! {

/// Upcoming trains at a station, as `(arrival timestamp, line)`, with the
/// countdown to the first one.
pub struct ProcessedData {
    pub upcoming_trains: Vec<(i64, String)>,
    pub big_countdown: Option<String>,
    pub big_countdown_line: Option<String>,
    pub station_name: String,
}

impl ProcessedData {
    /// No trains, no countdown, no station name.
    pub fn empty() -> (r: ProcessedData)
        ensures
            r.upcoming_trains@.len() == 0,
            r.big_countdown is None,
            r.big_countdown_line is None,
            r.station_name@.len() == 0,
    {
        ProcessedData {
            upcoming_trains: Vec::new(),
            big_countdown: None,
            big_countdown_line: None,
            station_name: String::new(),
        }
    }
}

} // verus!
