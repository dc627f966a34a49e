//! The station summary with trains in both directions and the time of the
//! data it was made from.
use vstd::prelude::*;
use crate::drawing::{countdown_summary, countdown_text};

verus! {

/// Upcoming trains at a station in each direction, as `(arrival timestamp,
/// line)`, with the countdown to the first inbound one and the timestamp of
/// the data.
pub struct ProcessedData {
    pub upcoming_trains: Vec<(i64, String)>,
    pub upcoming_outbound_trains: Vec<(i64, String)>,
    pub big_countdown: Option<String>,
    pub big_countdown_line: Option<String>,
    pub station_name: String,
    pub data_timestamp: i64,
}

impl ProcessedData {
    /// No trains, no countdown, no station name, timestamp zero.
    pub fn empty() -> (r: ProcessedData)
        ensures
            r.upcoming_trains@.len() == 0,
            r.upcoming_outbound_trains@.len() == 0,
            r.big_countdown is None,
            r.big_countdown_line is None,
            r.station_name@.len() == 0,
            r.data_timestamp == 0,
    {
        ProcessedData {
            upcoming_trains: Vec::new(),
            upcoming_outbound_trains: Vec::new(),
            big_countdown: None,
            big_countdown_line: None,
            station_name: String::new(),
            data_timestamp: 0,
        }
    }
}

/// The direction of travel of a line at the station.
#[derive(Debug, Clone, Copy, PartialEq, Eq, Structural)]
pub enum Direction {
    Uptown,
    Downtown,
}

/// The predicted arrivals of one line in one direction.
#[derive(Debug)]
pub struct LineArrivals {
    pub line: String,
    pub direction: Direction,
    pub arrivals: Vec<i64>,
}

/// A station's predicted arrivals, as the train service reports them.
#[derive(Debug)]
pub struct StationStatus {
    pub name: String,
    pub data_timestamp: i64,
    pub lines: Vec<LineArrivals>,
}

/// The arrivals in `ts` after `now`, in order.
pub open spec fn after(ts: Seq<i64>, now: i64) -> Seq<i64>
    decreases ts.len(),
{
    if ts.len() == 0 {
        Seq::empty()
    } else if ts.last() > now {
        after(ts.drop_last(), now).push(ts.last())
    } else {
        after(ts.drop_last(), now)
    }
}

/// The arrivals after `now` in direction `d`, line by line, each with its line.
pub open spec fn upcoming(lines: Seq<LineArrivals>, d: Direction, now: i64) -> Seq<(i64, Seq<char>)>
    decreases lines.len(),
{
    if lines.len() == 0 {
        Seq::empty()
    } else {
        let l = lines.last();
        let rest = upcoming(lines.drop_last(), d, now);
        if l.direction == d {
            rest + after(l.arrivals@, now).map_values(|t: i64| (t, l.line@))
        } else {
            rest
        }
    }
}

/// `x` placed before the first element of `s` that arrives later than it.
pub open spec fn insert_by_time(s: Seq<(i64, Seq<char>)>, x: (i64, Seq<char>)) -> Seq<(i64, Seq<char>)>
    decreases s.len(),
{
    if s.len() == 0 {
        seq![x]
    } else if s[0].0 <= x.0 {
        seq![s[0]] + insert_by_time(s.drop_first(), x)
    } else {
        seq![x] + s
    }
}

/// `s` ordered by arrival time; arrivals at the same time keep their order.
pub open spec fn sort_by_time(s: Seq<(i64, Seq<char>)>) -> Seq<(i64, Seq<char>)>
    decreases s.len(),
{
    if s.len() == 0 {
        s
    } else {
        insert_by_time(sort_by_time(s.drop_last()), s.last())
    }
}

pub open spec fn trains_view(v: Seq<(i64, String)>) -> Seq<(i64, Seq<char>)> {
    v.map_values(|e: (i64, String)| (e.0, e.1@))
}

proof fn lemma_insert_at(s: Seq<(i64, Seq<char>)>, x: (i64, Seq<char>), p: int)
    requires
        0 <= p <= s.len(),
        forall|j: int| 0 <= j < p ==> (#[trigger] s[j]).0 <= x.0,
        p < s.len() ==> s[p].0 > x.0,
    ensures
        insert_by_time(s, x) == s.insert(p, x),
    decreases p,
{
    if p == 0 {
        if s.len() == 0 {
            assert(s.insert(0, x) =~= seq![x]);
        } else {
            assert(s.insert(0, x) =~= seq![x] + s);
        }
    } else {
        let t = s.drop_first();
        assert forall|j: int| 0 <= j < p - 1 implies (#[trigger] t[j]).0 <= x.0 by {
            assert(t[j] == s[j + 1]);
        }
        lemma_insert_at(t, x, p - 1);
        assert(s.insert(p, x) =~= seq![s[0]] + t.insert(p - 1, x));
    }
}

/// Adds the arrivals of `line` after `now` to the time-ordered `out`.
fn insert_arrivals(out: &mut Vec<(i64, String)>, line: &LineArrivals, now: i64)
    ensures
        trains_view(final(out)@) == sort_by_time_onto(
            trains_view(old(out)@),
            after(line.arrivals@, now).map_values(|t: i64| (t, line.line@)),
        ),
{
    let ghost base = trains_view(old(out)@);
    let ghost added = after(line.arrivals@, now).map_values(|t: i64| (t, line.line@));
    let mut i: usize = 0;
    assert(line.arrivals@.take(0) =~= Seq::<i64>::empty());
    assert(after(line.arrivals@.take(0), now).map_values(|t: i64| (t, line.line@)) =~= Seq::<(i64, Seq<char>)>::empty());
    while i < line.arrivals.len()
        invariant
            i <= line.arrivals@.len(),
            trains_view(out@) == sort_by_time_onto(
                base,
                after(line.arrivals@.take(i as int), now).map_values(|t: i64| (t, line.line@)),
            ),
        decreases line.arrivals@.len() - i,
    {
        let t = line.arrivals[i];
        let ghost prev = after(line.arrivals@.take(i as int), now).map_values(|t: i64| (t, line.line@));
        assert(line.arrivals@.take(i + 1).drop_last() =~= line.arrivals@.take(i as int));
        if t > now {
            let mut p: usize = 0;
            while p < out.len() && out[p].0 <= t
                invariant
                    p <= out@.len(),
                    forall|j: int| 0 <= j < p ==> (#[trigger] out@[j]).0 <= t,
                decreases out@.len() - p,
            {
                p = p + 1;
            }
            let ghost before = trains_view(out@);
            proof {
                assert forall|j: int| 0 <= j < p implies (#[trigger] before[j]).0 <= t by {
                    assert(before[j].0 == out@[j].0);
                }
                if p < out@.len() {
                    assert(before[p as int].0 == out@[p as int].0);
                }
                lemma_insert_at(before, (t, line.line@), p as int);
            }
            out.insert(p, (t, line.line.clone()));
            proof {
                assert(trains_view(out@) =~= before.insert(p as int, (t, line.line@)));
                let next = after(line.arrivals@.take(i + 1), now).map_values(|t: i64| (t, line.line@));
                assert(next =~= prev.push((t, line.line@)));
                assert(next.drop_last() =~= prev);
            }
        } else {
            assert(after(line.arrivals@.take(i + 1), now).map_values(|t: i64| (t, line.line@)) =~= prev);
        }
        i = i + 1;
    }
    assert(line.arrivals@.take(i as int) =~= line.arrivals@);
}

/// `s` ordered by arrival time after the already ordered `base`'s elements.
pub open spec fn sort_by_time_onto(base: Seq<(i64, Seq<char>)>, s: Seq<(i64, Seq<char>)>) -> Seq<(i64, Seq<char>)>
    decreases s.len(),
{
    if s.len() == 0 {
        base
    } else {
        insert_by_time(sort_by_time_onto(base, s.drop_last()), s.last())
    }
}

proof fn lemma_sort_onto_concat(base: Seq<(i64, Seq<char>)>, s: Seq<(i64, Seq<char>)>, t: Seq<(i64, Seq<char>)>)
    ensures
        sort_by_time_onto(sort_by_time_onto(base, s), t) == sort_by_time_onto(base, s + t),
    decreases t.len(),
{
    if t.len() == 0 {
        assert(s + t =~= s);
    } else {
        lemma_sort_onto_concat(base, s, t.drop_last());
        assert((s + t).drop_last() =~= s + t.drop_last());
        assert((s + t).last() == t.last());
    }
}

proof fn lemma_sort_onto_empty(s: Seq<(i64, Seq<char>)>)
    ensures
        sort_by_time_onto(Seq::empty(), s) == sort_by_time(s),
    decreases s.len(),
{
    if s.len() > 0 {
        lemma_sort_onto_empty(s.drop_last());
    }
}

/// The arrivals after `now` in direction `d`, ordered by time.
fn upcoming_sorted(lines: &Vec<LineArrivals>, d: Direction, now: i64) -> (r: Vec<(i64, String)>)
    ensures
        trains_view(r@) == sort_by_time(upcoming(lines@, d, now)),
{
    let mut out: Vec<(i64, String)> = Vec::new();
    let mut k: usize = 0;
    assert(lines@.take(0) =~= Seq::<LineArrivals>::empty());
    assert(trains_view(out@) =~= Seq::<(i64, Seq<char>)>::empty());
    while k < lines.len()
        invariant
            k <= lines@.len(),
            trains_view(out@) == sort_by_time_onto(Seq::empty(), upcoming(lines@.take(k as int), d, now)),
        decreases lines@.len() - k,
    {
        let line = &lines[k];
        let ghost prev = upcoming(lines@.take(k as int), d, now);
        assert(lines@.take(k + 1).drop_last() =~= lines@.take(k as int));
        assert(lines@.take(k + 1).last() == lines@[k as int]);
        if line.direction == d {
            insert_arrivals(&mut out, line, now);
            proof {
                lemma_sort_onto_concat(
                    Seq::empty(),
                    prev,
                    after(line.arrivals@, now).map_values(|t: i64| (t, line.line@)),
                );
            }
        }
        k = k + 1;
    }
    assert(lines@.take(k as int) =~= lines@);
    proof {
        lemma_sort_onto_empty(upcoming(lines@, d, now));
    }
    out
}

/// `r` is what the display shows of the station `data` at `now`.
pub open spec fn is_summary(r: ProcessedData, data: StationStatus, now: i64) -> bool {
    let up = sort_by_time(upcoming(data.lines@, Direction::Uptown, now));
    let down = sort_by_time(upcoming(data.lines@, Direction::Downtown, now));
    if up.len() == 0 {
        &&& r.upcoming_trains@.len() == 0
        &&& r.upcoming_outbound_trains@.len() == 0
        &&& r.big_countdown is None
        &&& r.big_countdown_line is None
        &&& r.station_name@.len() == 0
        &&& r.data_timestamp == 0
    } else {
        &&& trains_view(r.upcoming_trains@) == up
        &&& trains_view(r.upcoming_outbound_trains@) == down
        &&& r.big_countdown matches Some(c) && c@ == countdown_text(now as int, up[0].0 as int)
        &&& r.big_countdown_line matches Some(l) && l@ == up[0].1
        &&& r.station_name@ == data.name@
        &&& r.data_timestamp == data.data_timestamp
    }
}

/// What the display shows of a station at `now`: the trains still to come in
/// each direction, ordered by arrival time, and the countdown to the first
/// uptown one. With no uptown train to come, the empty summary.
pub fn process_data(data: &StationStatus, now: i64) -> (r: ProcessedData)
    ensures
        is_summary(r, *data, now),
{
    let arrivals = upcoming_sorted(&data.lines, Direction::Uptown, now);
    let outbound = upcoming_sorted(&data.lines, Direction::Downtown, now);
    if arrivals.len() == 0 {
        assert(trains_view(arrivals@).len() == 0);
        return ProcessedData::empty();
    }
    assert(trains_view(arrivals@)[0] == (arrivals@[0].0, arrivals@[0].1@));
    let first_ts = arrivals[0].0;
    let first_line = arrivals[0].1.clone();
    ProcessedData {
        upcoming_trains: arrivals,
        upcoming_outbound_trains: outbound,
        big_countdown: Some(countdown_summary(now, first_ts)),
        big_countdown_line: Some(first_line),
        station_name: data.name.clone(),
        data_timestamp: data.data_timestamp,
    }
}

/// The summary of a fetched station status at `now`; a failed fetch is
/// passed on as it is.
pub fn fetch_and_process_data(fetched: Result<StationStatus, String>, now: i64) -> (r: Result<
    ProcessedData,
    String,
>)
    ensures
        match fetched {
            Ok(data) => r matches Ok(p) && is_summary(p, data, now),
            Err(e) => r == Err::<ProcessedData, String>(e),
        },
{
    match fetched {
        Ok(data) => Ok(process_data(&data, now)),
        Err(e) => Err(e),
    }
}

} // verus!
