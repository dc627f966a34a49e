use ttdash::dashboard::{needs_redraw, refresh_due, AIR_QUALITY_INTERVAL_SECS, REDRAW_INTERVAL_SECS};
use ttdash::subway::{
    fetch_and_process_data, process_data, Direction, LineArrivals, ProcessedData, StationStatus,
};

fn line(name: &str, direction: Direction, arrivals: &[i64]) -> LineArrivals {
    LineArrivals { line: name.to_string(), direction, arrivals: arrivals.to_vec() }
}

fn station() -> StationStatus {
    StationStatus {
        name: "Union St".to_string(),
        data_timestamp: 990,
        lines: vec![
            line("R", Direction::Uptown, &[1500, 900, 1200]),
            line("D", Direction::Downtown, &[1300, 1100]),
            line("N", Direction::Uptown, &[1200, 1000, 1030]),
        ],
    }
}

fn trains(v: &[(i64, String)]) -> Vec<(i64, &str)> {
    v.iter().map(|(t, l)| (*t, l.as_str())).collect()
}

#[test]
fn upcoming_trains_sorted_by_time() {
    let d = process_data(&station(), 1000);
    assert_eq!(trains(&d.upcoming_trains), vec![(1030, "N"), (1200, "R"), (1200, "N"), (1500, "R")]);
    assert_eq!(trains(&d.upcoming_outbound_trains), vec![(1100, "D"), (1300, "D")]);
    assert_eq!(d.big_countdown.as_deref(), Some("<1"));
    assert_eq!(d.big_countdown_line.as_deref(), Some("N"));
    assert_eq!(d.station_name, "Union St");
    assert_eq!(d.data_timestamp, 990);
}

#[test]
fn countdown_to_first_train() {
    let d = process_data(&station(), 800);
    assert_eq!(d.big_countdown.as_deref(), Some("1"));
    assert_eq!(d.big_countdown_line.as_deref(), Some("R"));
    assert_eq!(d.upcoming_trains.len(), 6);
}

#[test]
fn no_uptown_trains_gives_empty_summary() {
    let d = process_data(&station(), 1500);
    assert!(d.upcoming_trains.is_empty());
    assert!(d.upcoming_outbound_trains.is_empty());
    assert!(d.big_countdown.is_none());
    assert_eq!(d.station_name, "");
    assert_eq!(d.data_timestamp, 0);
}

#[test]
fn failed_fetch_is_passed_on() {
    assert_eq!(fetch_and_process_data(Err("down".to_string()), 0).err().unwrap(), "down");
    let d = fetch_and_process_data(Ok(station()), 1000).unwrap();
    assert_eq!(d.upcoming_trains.len(), 4);
}

fn summary(countdown: Option<&str>, ts: i64) -> ProcessedData {
    let mut d = ProcessedData::empty();
    d.big_countdown = countdown.map(String::from);
    d.data_timestamp = ts;
    d
}

#[test]
fn redraw_decisions() {
    let shown = summary(Some("5"), 100);
    assert!(needs_redraw(&shown, &summary(Some("4"), 160), Some(150), 160));
    assert!(!needs_redraw(&shown, &summary(Some("4"), 90), Some(150), 160));
    assert!(!needs_redraw(&shown, &summary(Some("5"), 160), Some(150), 160));
    assert!(needs_redraw(&shown, &summary(Some("5"), 160), None, 160));
    assert!(needs_redraw(&shown, &summary(Some("5"), 160), Some(0), REDRAW_INTERVAL_SECS + 1));
    assert!(!needs_redraw(&shown, &summary(Some("5"), 160), Some(0), REDRAW_INTERVAL_SECS));
    assert!(needs_redraw(&shown, &summary(None, 160), Some(150), 160));
}

#[test]
fn refresh_decisions() {
    assert!(refresh_due(None, 0, AIR_QUALITY_INTERVAL_SECS));
    assert!(!refresh_due(Some(100), 160, AIR_QUALITY_INTERVAL_SECS));
    assert!(refresh_due(Some(100), 161, AIR_QUALITY_INTERVAL_SECS));
    assert!(refresh_due(Some(i64::MIN), i64::MAX, REDRAW_INTERVAL_SECS));
}
