use dynisland_reconcile::device::{HistoryEntry, State};
use dynisland_reconcile::graph::{
    clamp_max_duration, grid_instants, grid_start, grid_step, next_grid_minute, points_in_range, shows_date, shows_time,
    visible_range, GridStart, MIN_DURATION_SECS,
};

fn point(timestamp: u32, percent: f64) -> HistoryEntry {
    HistoryEntry { timestamp, value: percent.to_bits(), state: State::Discharging }
}

#[test]
fn the_grid_step_grows_with_the_stretch() {
    let table = [
        (0u32, 1u32),
        (4, 1),
        (5, 2),
        (9, 2),
        (10, 5),
        (24, 5),
        (25, 10),
        (49, 10),
        (50, 20),
        (99, 20),
        (100, 60),
        (299, 60),
        (300, 120),
        (599, 120),
        (600, 240),
        (1199, 240),
        (1200, 480),
        (2399, 480),
        (2400, 720),
        (3599, 720),
        (3600, 1440),
        (u32::MAX, 1440),
    ];
    for (mins, step) in table {
        assert_eq!(grid_step(mins), step, "{}", mins);
    }
}

#[test]
fn the_labels_depend_on_the_step() {
    assert!(!shows_date(480));
    assert!(shows_date(720));
    assert!(shows_date(1440));
    assert!(shows_time(1));
    assert!(shows_time(720));
    assert!(!shows_time(1440));
}

#[test]
fn the_next_grid_minute_is_the_next_multiple_of_the_step() {
    assert_eq!(next_grid_minute(0, 5), 5);
    assert_eq!(next_grid_minute(3, 5), 5);
    assert_eq!(next_grid_minute(5, 5), 10);
    assert_eq!(next_grid_minute(1439, 1440), 1440);
    assert_eq!(next_grid_minute(1439, 60), 1440);
    assert_eq!(next_grid_minute(725, 1), 726);
}

#[test]
fn a_shorter_history_does_not_reach_past_the_oldest_point() {
    assert_eq!(clamp_max_duration(3600, 36000, Some(9000), 10000), 1000);
    assert_eq!(clamp_max_duration(3600, 36000, Some(1000), 10000), 3600);
    assert_eq!(clamp_max_duration(3600, 3600, Some(9000), 10000), 3600);
    assert_eq!(clamp_max_duration(3600, 1800, Some(9000), 10000), 3600);
    assert_eq!(clamp_max_duration(3600, 36000, None, 10000), 3600);
}

#[test]
fn no_history_is_shorter_than_four_minutes() {
    assert_eq!(MIN_DURATION_SECS, 240);
    assert_eq!(clamp_max_duration(0, 36000, None, 10000), 240);
    assert_eq!(clamp_max_duration(239, 36000, None, 10000), 240);
    assert_eq!(clamp_max_duration(240, 36000, None, 10000), 240);
    assert_eq!(clamp_max_duration(3600, 36000, Some(9990), 10000), 240);
}

#[test]
fn the_visible_range_starts_at_the_oldest_point_if_that_is_later() {
    assert_eq!(visible_range(100_000, 36_000, None), (64_000, 600));
    assert_eq!(visible_range(100_000, 36_000, Some(10_000)), (64_000, 600));
    assert_eq!(visible_range(100_000, 36_000, Some(99_000)), (99_000, 16));
    assert_eq!(visible_range(100_000, 36_000, Some(100_000)), (100_000, 0));
    assert_eq!(visible_range(100_000, 100_000, None), (0, 1666));
}

#[test]
fn the_points_in_range_end_with_the_newest_point_moved_to_now() {
    let points =
        vec![point(50, 90.0), point(100, 80.0), point(150, 70.0), point(200, 60.0), point(300, 55.0)];
    assert_eq!(
        points_in_range(&points, 100, 200),
        vec![point(100, 80.0), point(150, 70.0), point(200, 60.0), point(200, 55.0)]
    );
    assert_eq!(points_in_range(&points, 301, 400), vec![point(400, 55.0)]);
    assert!(points_in_range(&Vec::new(), 0, 400).is_empty());
}

#[test]
fn the_newest_point_is_the_last_of_those_with_the_greatest_time() {
    let points = vec![point(300, 1.0), point(100, 2.0), point(300, 3.0), point(200, 4.0)];
    assert_eq!(
        points_in_range(&points, 0, 250),
        vec![point(100, 2.0), point(200, 4.0), point(250, 3.0)]
    );
}

#[test]
fn the_grid_lines_fall_every_step_from_the_first() {
    assert_eq!(grid_instants(600, 500, 1300, 5), vec![600, 900, 1200]);
    assert_eq!(grid_instants(600, 500, 1200, 5), vec![600, 900]);
    assert_eq!(grid_instants(600, 700, 1300, 5), vec![900, 1200]);
    assert_eq!(grid_instants(600, 0, 600, 5), Vec::<u32>::new());
    assert_eq!(grid_instants(600, 0, 601, 1440), vec![600]);
}

#[test]
fn the_grid_ends_where_the_time_runs_out() {
    let first = u32::MAX - 100;
    assert_eq!(grid_instants(first, 0, u32::MAX, 1), vec![first, first + 60]);
}

#[test]
fn the_first_grid_line_falls_on_the_next_step_of_the_clock() {
    // 10:07:30 with a step of five minutes: 10:10 on the same day.
    assert_eq!(grid_start(10 * 3600 + 7 * 60 + 30, 5), GridStart { hour: 10, minute: 10, days: 0 });
    // 10:09:59 belongs to the minute 10:10 already.
    assert_eq!(grid_start(10 * 3600 + 9 * 60 + 59, 5), GridStart { hour: 10, minute: 15, days: 0 });
    // 23:30 with a step of an hour: midnight of the next day.
    assert_eq!(grid_start(23 * 3600 + 30 * 60, 60), GridStart { hour: 0, minute: 0, days: 1 });
    // A step of a day always leads to the next midnight.
    assert_eq!(grid_start(0, 1440), GridStart { hour: 0, minute: 0, days: 1 });
    assert_eq!(grid_start(86_399, 1440), GridStart { hour: 0, minute: 0, days: 2 });
}
