use dynisland_reconcile::diff::{acitvities_to_update, activities_to_update, apply_update};
use dynisland_reconcile::identifier::{get_conf_idx, ActivityIdentifier};

fn id(window: &str, instance: usize) -> ActivityIdentifier {
    ActivityIdentifier::new("power", "power-activity", window, instance)
}

fn ids(slots: &[(&str, usize)]) -> Vec<ActivityIdentifier> {
    slots.iter().map(|(window, instance)| id(window, *instance)).collect()
}

fn owned(list: Vec<&ActivityIdentifier>) -> Vec<ActivityIdentifier> {
    list.into_iter().cloned().collect()
}

#[test]
fn removes_the_instance_beyond_the_count() {
    let current = ids(&[("main", 0), ("main", 1), ("side", 0)]);
    let desired = vec![("main", 1usize), ("side", 1usize)];
    let (to_remove, to_add) = activities_to_update(&current, &desired);
    assert_eq!(owned(to_remove), ids(&[("main", 1)]));
    assert_eq!(to_add, Vec::<(&str, usize)>::new());
}

#[test]
fn a_count_of_zero_removes_every_instance_of_the_window() {
    let current = ids(&[("main", 0), ("main", 1), ("side", 0)]);
    let desired = vec![("main", 1usize), ("side", 0usize)];
    let (to_remove, to_add) = activities_to_update(&current, &desired);
    assert_eq!(owned(to_remove), ids(&[("main", 1), ("side", 0)]));
    assert_eq!(to_add, Vec::<(&str, usize)>::new());
}

#[test]
fn grows_from_zero_on_a_new_window() {
    let current: Vec<ActivityIdentifier> = Vec::new();
    let desired = vec![("main", 2usize)];
    let (to_remove, to_add) = activities_to_update(&current, &desired);
    assert!(to_remove.is_empty());
    assert_eq!(to_add, vec![("main", 0), ("main", 1)]);
}

#[test]
fn adds_the_first_instance_of_another_window() {
    let current = ids(&[("main", 0)]);
    let desired = vec![("main", 1usize), ("other", 1usize)];
    let (to_remove, to_add) = activities_to_update(&current, &desired);
    assert!(to_remove.is_empty());
    assert_eq!(to_add, vec![("other", 0)]);
}

#[test]
fn a_window_listed_with_count_zero_loses_its_instance() {
    let current = ids(&[("main", 0)]);
    let desired = vec![("main", 0usize), ("other", 1usize)];
    let (to_remove, to_add) = activities_to_update(&current, &desired);
    assert_eq!(owned(to_remove), ids(&[("main", 0)]));
    assert_eq!(to_add, vec![("other", 0)]);
}

#[test]
fn a_window_that_is_not_desired_loses_all_instances() {
    let current = ids(&[("main", 0), ("gone", 0), ("gone", 1)]);
    let desired = vec![("main", 1usize)];
    let (to_remove, to_add) = activities_to_update(&current, &desired);
    assert_eq!(owned(to_remove), ids(&[("gone", 0), ("gone", 1)]));
    assert!(to_add.is_empty());
}

#[test]
fn growth_starts_above_the_highest_index_in_use() {
    // Instance 1 is missing, instance 2 is there: the gap is not filled.
    let current = ids(&[("main", 0), ("main", 2)]);
    let desired = vec![("main", 5usize)];
    let (to_remove, to_add) = activities_to_update(&current, &desired);
    assert!(to_remove.is_empty());
    assert_eq!(to_add, vec![("main", 3), ("main", 4)]);
}

#[test]
fn an_index_removed_in_this_call_is_not_added_again() {
    // The highest index is taken before the removal, so nothing is added
    // although the window ends below its count.
    let current = ids(&[("main", 5)]);
    let desired = vec![("main", 3usize)];
    let (to_remove, to_add) = activities_to_update(&current, &desired);
    assert_eq!(owned(to_remove), ids(&[("main", 5)]));
    assert!(to_add.is_empty());
}

#[test]
fn the_highest_possible_index_leaves_nothing_to_add() {
    let current = ids(&[("main", usize::MAX)]);
    let desired = vec![("main", usize::MAX)];
    let (to_remove, to_add) = activities_to_update(&current, &desired);
    assert_eq!(owned(to_remove), ids(&[("main", usize::MAX)]));
    assert!(to_add.is_empty());
}

#[test]
fn each_entry_of_a_window_adds_its_own_range() {
    let current: Vec<ActivityIdentifier> = Vec::new();
    let desired = vec![("main", 1usize), ("main", 2usize)];
    let (to_remove, to_add) = activities_to_update(&current, &desired);
    assert!(to_remove.is_empty());
    assert_eq!(to_add, vec![("main", 0), ("main", 0), ("main", 1)]);
}

#[test]
fn removed_and_added_never_share_a_slot() {
    let current = ids(&[("a", 0), ("a", 3), ("b", 1), ("c", 7)]);
    let desired = vec![("a", 2usize), ("b", 4usize), ("c", 0usize), ("d", 2usize)];
    let (to_remove, to_add) = activities_to_update(&current, &desired);
    assert_eq!(owned(to_remove.clone()), ids(&[("a", 3), ("c", 7)]));
    assert_eq!(to_add, vec![("b", 2), ("b", 3), ("d", 0), ("d", 1)]);
    for gone in &to_remove {
        for (window, index) in &to_add {
            assert!(!(gone.window_name() == *window && gone.instance() == *index));
        }
    }
}

#[test]
fn a_second_difference_after_the_update_is_empty() {
    let current = ids(&[("main", 0), ("main", 1), ("side", 0)]);
    let desired = vec![("main", 1usize), ("side", 3usize), ("new", 2usize)];
    let (to_remove, to_add) = activities_to_update(&current, &desired);
    let next = apply_update(&current, &to_remove, &to_add, "power", "power-activity");
    assert_eq!(
        next,
        ids(&[("main", 0), ("side", 0), ("side", 1), ("side", 2), ("new", 0), ("new", 1)])
    );
    let (to_remove, to_add) = activities_to_update(&next, &desired);
    assert!(to_remove.is_empty());
    assert!(to_add.is_empty());
}

#[test]
fn a_second_difference_restarts_a_window_that_lost_its_top() {
    let current = ids(&[("main", 5)]);
    let desired = vec![("main", 3usize)];
    let (to_remove, to_add) = activities_to_update(&current, &desired);
    let next = apply_update(&current, &to_remove, &to_add, "power", "power-activity");
    assert!(next.is_empty());
    let (to_remove, to_add) = activities_to_update(&next, &desired);
    assert!(to_remove.is_empty());
    assert_eq!(to_add, vec![("main", 0), ("main", 1), ("main", 2)]);
}

#[test]
fn apply_update_names_the_new_activities() {
    let current = ids(&[("main", 0)]);
    let to_remove: Vec<&ActivityIdentifier> = Vec::new();
    let to_add = vec![("main", 1usize)];
    let next = apply_update(&current, &to_remove, &to_add, "music", "music-activity");
    assert_eq!(next.len(), 2);
    assert_eq!(next[0], id("main", 0));
    assert_eq!(next[1].module(), "music");
    assert_eq!(next[1].activity(), "music-activity");
    assert_eq!(next[1].window_name(), "main");
    assert_eq!(get_conf_idx(&next[1]), 1);
}

#[test]
fn the_music_difference_names_what_it_removes() {
    let current = vec![
        ActivityIdentifier::new("music", "player-a", "main", 0),
        ActivityIdentifier::new("music", "player-b", "main", 1),
        ActivityIdentifier::new("music", "player-c", "side", 0),
    ];
    let desired = vec![("main", 1usize), ("side", 2usize)];
    let (to_remove, to_add) = acitvities_to_update(&current, &desired);
    assert_eq!(to_remove, vec!["player-b"]);
    assert_eq!(to_add, vec![("side", 1)]);
}
