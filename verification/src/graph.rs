//! The time axis of the charge history graph: which stretch of the history
//! is shown and where the grid lines fall. All times are seconds since the
//! Unix epoch unless they are said to be minutes.

use crate::device::HistoryEntry;
use vstd::prelude::*;

verus! {

/// The shortest history that the graph shows, in seconds.
pub const MIN_DURATION_SECS: u32 = 240;

/// The minutes between two grid lines for a stretch of `mins` minutes.
pub open spec fn grid_step_of(mins: u32) -> u32 {
    if mins < 5 {
        1
    } else if mins < 10 {
        2
    } else if mins < 25 {
        5
    } else if mins < 50 {
        10
    } else if mins < 100 {
        20
    } else if mins < 300 {
        60
    } else if mins < 600 {
        120
    } else if mins < 1200 {
        240
    } else if mins < 2400 {
        480
    } else if mins < 3600 {
        720
    } else {
        1440
    }
}

/// The minutes between two grid lines for a stretch of `mins` minutes: from
/// one minute for less than five up to a day for sixty hours and more.
pub fn grid_step(mins: u32) -> (step: u32)
    ensures
        step == grid_step_of(mins),
        1 <= step <= 1440,
{
    if mins < 5 {
        1
    } else if mins < 10 {
        2
    } else if mins < 25 {
        5
    } else if mins < 50 {
        10
    } else if mins < 100 {
        20
    } else if mins < 300 {
        60
    } else if mins < 600 {
        120
    } else if mins < 1200 {
        240
    } else if mins < 2400 {
        480
    } else if mins < 3600 {
        720
    } else {
        1440
    }
}

/// Whether a grid line at this step is labelled with the date.
pub fn shows_date(step: u32) -> (shown: bool)
    ensures
        shown == (step >= 720),
{
    step >= 720
}

/// Whether a grid line at this step is labelled with the time of day.
pub fn shows_time(step: u32) -> (shown: bool)
    ensures
        shown == (step != 1440),
{
    step != 1440
}

/// The first grid minute after `minutes`: the next multiple of `step`.
pub fn next_grid_minute(minutes: u32, step: u32) -> (rounded: u32)
    requires
        step > 0,
        minutes + step <= u32::MAX,
    ensures
        rounded == step + minutes - minutes % step,
        rounded % step == 0,
        minutes < rounded <= minutes + step,
{
    let rounded = step + minutes - minutes % step;
    assert(rounded % step == 0) by (nonlinear_arith)
        requires
            rounded == step + minutes - minutes % step,
            step > 0,
    ;
    rounded
}

/// Where the first grid line falls, by the clock of the day on which the
/// shown stretch begins.
#[derive(Debug, Clone, Copy, PartialEq, Eq, Structural)]
pub struct GridStart {
    /// The hour of the day.
    pub hour: u32,
    /// The minute of the hour.
    pub minute: u32,
    /// How many days after the day on which the stretch begins.
    pub days: u32,
}

/// The first grid line for a stretch that begins `seconds` seconds after
/// midnight: at the next multiple of `step` minutes after the minute in
/// which the following second falls.
pub fn grid_start(seconds: u32, step: u32) -> (start: GridStart)
    requires
        step > 0,
        seconds < u32::MAX,
        (seconds + 1) / 60 + step <= u32::MAX,
    ensures
        ({
            let minutes = (seconds + 1) / 60;
            let rounded = step + minutes - minutes % (step as int);
            &&& start.hour == (rounded % 1440) / 60
            &&& start.minute == rounded % 60
            &&& start.days == rounded / 1440
        }),
        start.hour < 24,
        start.minute < 60,
{
    let minutes = (seconds + 1) / 60;
    let rounded = next_grid_minute(minutes, step);
    GridStart { hour: (rounded % 1440) / 60, minute: rounded % 60, days: rounded / 1440 }
}

/// The instants of the grid lines from `at` on: every `step_secs` seconds
/// while before `to`, without those before `from`.
pub open spec fn grid_from(at: int, from: u32, to: u32, step_secs: u32) -> Seq<u32>
    decreases (if at < to {
        to - at
    } else {
        0
    }),
{
    if at >= to || step_secs == 0 || at < 0 {
        Seq::empty()
    } else if at >= from {
        seq![at as u32] + grid_from(at + step_secs, from, to, step_secs)
    } else {
        grid_from(at + step_secs, from, to, step_secs)
    }
}

/// The instants of the grid lines on the stretch between `from` and `to`:
/// one every `step` minutes, counted from `first`.
pub fn grid_instants(first: u32, from: u32, to: u32, step: u32) -> (grid: Vec<u32>)
    requires
        0 < step,
        step * 60 <= u32::MAX,
    ensures
        grid@ == grid_from(first as int, from, to, (step * 60) as u32),
{
    let step_secs: u32 = step * 60;
    let mut grid: Vec<u32> = Vec::new();
    let mut at: u32 = first;
    while at < to
        invariant_except_break
            step_secs > 0,
            grid@ + grid_from(at as int, from, to, step_secs) == grid_from(
                first as int,
                from,
                to,
                step_secs,
            ),
        ensures
            grid@ == grid_from(first as int, from, to, step_secs),
        decreases (if at < to {
            to - at
        } else {
            0
        }),
    {
        let ghost rest = grid_from(at + step_secs, from, to, step_secs);
        let ghost before = grid@;
        if at >= from {
            grid.push(at);
            assert(grid@ + rest =~= before + (seq![at] + rest));
        }
        match at.checked_add(step_secs) {
            Some(next) => {
                at = next;
            },
            None => {
                assert(rest =~= Seq::<u32>::empty());
                assert(grid@ + rest =~= grid@);
                assert(grid@ == grid_from(first as int, from, to, step_secs));
                break ;
            },
        }
    }
    assert(grid@ + Seq::<u32>::empty() =~= grid@);
    grid
}

/// The history length that a request for `requested` seconds gives. A
/// request that shortens the history does not reach back past the oldest
/// point, and no history is shorter than [`MIN_DURATION_SECS`].
pub open spec fn max_duration_of(requested: u32, current: u32, oldest: Option<u32>, now: u32) -> u32 {
    let wanted = match oldest {
        Some(first) => if now - first < requested && requested < current {
            (now - first) as u32
        } else {
            requested
        },
        None => requested,
    };
    if wanted < MIN_DURATION_SECS {
        MIN_DURATION_SECS
    } else {
        wanted
    }
}

/// The history length to take over when `requested` seconds are asked for
/// while `current` seconds are in force. `oldest` is the time of the oldest
/// point of the history, if it has one.
pub fn clamp_max_duration(requested: u32, current: u32, oldest: Option<u32>, now: u32) -> (taken:
    u32)
    requires
        oldest matches Some(first) ==> first <= now,
    ensures
        taken == max_duration_of(requested, current, oldest, now),
{
    let mut wanted = requested;
    if let Some(first) = oldest {
        let reach = now - first;
        if reach < requested && requested < current {
            wanted = reach;
        }
    }
    if wanted < MIN_DURATION_SECS {
        MIN_DURATION_SECS
    } else {
        wanted
    }
}

/// Where the shown stretch begins: `max_duration_secs` before `now`, but
/// not before the oldest point.
pub open spec fn start_of(now: u32, max_duration_secs: u32, oldest: Option<u32>) -> int {
    let back = now - max_duration_secs;
    match oldest {
        Some(first) => if first > back {
            first as int
        } else {
            back
        },
        None => back,
    }
}

/// The beginning of the shown stretch, and its length in whole minutes.
pub fn visible_range(now: u32, max_duration_secs: u32, oldest: Option<u32>) -> (range: (u32, u32))
    requires
        max_duration_secs <= now,
        oldest matches Some(first) ==> first <= now,
    ensures
        range.0 == start_of(now, max_duration_secs, oldest),
        range.1 == (now - range.0) / 60,
{
    let back = now - max_duration_secs;
    let start = match oldest {
        Some(first) => if first > back {
            first
        } else {
            back
        },
        None => back,
    };
    (start, (now - start) / 60)
}

/// The position of the newest point: the last one among those with the
/// greatest timestamp.
pub open spec fn newest(points: Seq<HistoryEntry>) -> int
    decreases points.len(),
{
    if points.len() <= 1 {
        0
    } else {
        let before = newest(points.drop_last());
        if points.last().timestamp >= points[before].timestamp {
            points.len() - 1
        } else {
            before
        }
    }
}

/// The points to draw: those between `from` and `to`, and behind them the
/// newest point of all, moved to the time `to`.
pub open spec fn drawn(points: Seq<HistoryEntry>, from: u32, to: u32) -> Seq<HistoryEntry> {
    let shown = points.filter(|p: HistoryEntry| from <= p.timestamp <= to);
    if points.len() == 0 {
        shown
    } else {
        shown.push(HistoryEntry { timestamp: to, ..points[newest(points)] })
    }
}

/// Picks the points to draw on the stretch between `from` and `to`.
pub fn points_in_range(points: &Vec<HistoryEntry>, from: u32, to: u32) -> (range: Vec<HistoryEntry>)
    ensures
        range@ == drawn(points@, from, to),
{
    let mut range: Vec<HistoryEntry> = Vec::new();
    let mut last: usize = 0;
    let mut i: usize = 0;
    assert(points@.take(0) =~= Seq::<HistoryEntry>::empty());
    while i < points.len()
        invariant
            i <= points.len(),
            range@ == points@.take(i as int).filter(|p: HistoryEntry| from <= p.timestamp <= to),
            last == newest(points@.take(i as int)),
            i > 0 ==> last < i,
        decreases points.len() - i,
    {
        let point = points[i];
        proof {
            let seen = points@.take(i as int);
            assert(points@.take(i + 1) =~= seen.push(point));
            assert(points@.take(i + 1).drop_last() =~= seen);
            seen.lemma_filter_push(point, |p: HistoryEntry| from <= p.timestamp <= to);
            if i > 0 {
                assert(seen[last as int] == points@[last as int]);
            }
        }
        if from <= point.timestamp && point.timestamp <= to {
            range.push(point);
        }
        if i > 0 && point.timestamp >= points[last].timestamp {
            last = i;
        }
        i += 1;
    }
    assert(points@.take(points.len() as int) =~= points@);
    if points.len() > 0 {
        let newest = points[last];
        range.push(HistoryEntry { timestamp: to, value: newest.value, state: newest.state });
    }
    range
}

} // verus!
