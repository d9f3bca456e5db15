//! Reconciliation of the activities that exist with the instance counts that
//! the configuration asks for.
//!
//! The difference is non-compacting: growth on a window starts one past the
//! highest index that is in use when the difference is taken, so an index is
//! never handed out again while the activity that holds it, or one above it,
//! is still listed.

use crate::identifier::{ActivityIdentifier, ActivityIdentifierView, Slot};
use crate::text::text_eq;
use vstd::prelude::*;

verus! {

/// How many instances a window should have.
pub ghost struct Demand {
    pub window: Seq<char>,
    pub count: nat,
}

/// The slots that a list of activities occupies, in the list's order.
pub open spec fn slots(current: Seq<ActivityIdentifier>) -> Seq<Slot> {
    current.map_values(|a: ActivityIdentifier| a.slot())
}

/// A list of `(window, count)` pairs as demands.
pub open spec fn demands(desired: Seq<(&str, usize)>) -> Seq<Demand> {
    desired.map_values(|d: (&str, usize)| Demand { window: d.0@, count: d.1 as nat })
}

/// A list of `(window, index)` pairs as slots.
pub open spec fn placed(pairs: Seq<(&str, usize)>) -> Seq<Slot> {
    pairs.map_values(|p: (&str, usize)| Slot { window: p.0@, index: p.1 as nat })
}

/// Whether some demand for the slot's window asks for more instances than the
/// slot's index.
pub open spec fn wanted(slot: Slot, desired: Seq<Demand>) -> bool {
    exists|j: int|
        0 <= j < desired.len() && (#[trigger] desired[j]).window == slot.window && desired[j].count
            > slot.index
}

/// One past the highest index in use on `window`; zero where the window has
/// no slot at all.
pub open spec fn next_index(current: Seq<Slot>, window: Seq<char>) -> nat
    decreases current.len(),
{
    if current.len() == 0 {
        0
    } else {
        let before = next_index(current.drop_last(), window);
        let last = current.last();
        if last.window == window && last.index >= before {
            last.index + 1
        } else {
            before
        }
    }
}

/// The slots that one demand adds: from the window's next index up to, and
/// without, the demanded count.
pub open spec fn growth(current: Seq<Slot>, demand: Demand) -> Seq<Slot> {
    let first = next_index(current, demand.window);
    Seq::new(
        if demand.count > first {
            (demand.count - first) as nat
        } else {
            0
        },
        |i: int| Slot { window: demand.window, index: (first + i) as nat },
    )
}

/// The slots to add: each demand's growth, in the order of the demands.
pub open spec fn additions(current: Seq<Slot>, desired: Seq<Demand>) -> Seq<Slot> {
    desired.map_values(|d: Demand| growth(current, d)).flatten()
}

/// The slots to remove: those that no demand wants, in their own order.
pub open spec fn removals(current: Seq<Slot>, desired: Seq<Demand>) -> Seq<Slot> {
    current.filter(|s: Slot| !wanted(s, desired))
}

/// The activities to remove: those whose slot no demand wants.
pub open spec fn superseded(current: Seq<ActivityIdentifier>, desired: Seq<Demand>) -> Seq<
    ActivityIdentifier,
> {
    current.filter(|a: ActivityIdentifier| !wanted(a.slot(), desired))
}

/// The activities that an update keeps: those whose slot some demand wants.
pub open spec fn retained(current: Seq<ActivityIdentifier>, desired: Seq<Demand>) -> Seq<
    ActivityIdentifier,
> {
    current.filter(|a: ActivityIdentifier| wanted(a.slot(), desired))
}

/// The slots after an update: what was there, less every slot listed for
/// removal, followed by the slots added.
pub open spec fn updated(current: Seq<Slot>, to_remove: Seq<Slot>, to_add: Seq<Slot>) -> Seq<Slot> {
    current.filter(|s: Slot| !to_remove.contains(s)) + to_add
}

/// Whether one more difference after the update would add nothing: every
/// demand for at least one instance either grows its window up to its count,
/// or finds a wanted slot at or above its last index.
pub open spec fn settles(current: Seq<Slot>, desired: Seq<Demand>) -> bool {
    forall|j: int|
        0 <= j < desired.len() ==> {
            let d = #[trigger] desired[j];
            ||| d.count == 0
            ||| next_index(current, d.window) < d.count
            ||| exists|i: int|
                0 <= i < current.len() && (#[trigger] current[i]).window == d.window && current[i].index
                    + 1 >= d.count && wanted(current[i], desired)
        }
}

/// `next_index` lies above every index in use on the window, and directly
/// above one of them unless it is zero.
pub proof fn lemma_next_index(current: Seq<Slot>, window: Seq<char>)
    ensures
        forall|i: int|
            0 <= i < current.len() && (#[trigger] current[i]).window == window ==> current[i].index
                < next_index(current, window),
        next_index(current, window) > 0 ==> exists|i: int|
            0 <= i < current.len() && (#[trigger] current[i]).window == window && current[i].index
                + 1 == next_index(current, window),
    decreases current.len(),
{
    if current.len() > 0 {
        let front = current.drop_last();
        lemma_next_index(front, window);
        assert forall|i: int|
            0 <= i < current.len() && (#[trigger] current[i]).window == window implies current[i].index
            < next_index(current, window) by {
            if i < front.len() {
                assert(front[i] == current[i]);
            }
        }
        if next_index(current, window) > 0 {
            let last = current.last();
            if last.window == window && last.index >= next_index(front, window) {
                assert(current[current.len() - 1] == last);
            } else {
                let i = choose|i: int|
                    0 <= i < front.len() && (#[trigger] front[i]).window == window && front[i].index
                        + 1 == next_index(front, window);
                assert(current[i] == front[i]);
            }
        }
    }
}

/// Every added slot lies on a demanded window, below that demand's count and
/// at or above the window's next index.
pub proof fn lemma_additions_member(current: Seq<Slot>, desired: Seq<Demand>, k: int)
    requires
        0 <= k < additions(current, desired).len(),
    ensures
        additions(current, desired)[k].index >= next_index(
            current,
            additions(current, desired)[k].window,
        ),
        exists|j: int|
            0 <= j < desired.len() && (#[trigger] desired[j]).window == additions(
                current,
                desired,
            )[k].window && desired[j].count > additions(current, desired)[k].index,
        wanted(additions(current, desired)[k], desired),
    decreases desired.len(),
{
    let parts = desired.map_values(|d: Demand| growth(current, d));
    if desired.len() > 0 {
        let front = desired.drop_last();
        let front_parts = front.map_values(|d: Demand| growth(current, d));
        let last = growth(current, desired.last());
        assert(parts =~= front_parts.push(last));
        front_parts.lemma_flatten_push(last);
        assert(additions(current, desired) =~= additions(current, front) + last);
        if k < additions(current, front).len() {
            lemma_additions_member(current, front, k);
            let j = choose|j: int|
                0 <= j < front.len() && (#[trigger] front[j]).window == additions(
                    current,
                    front,
                )[k].window && front[j].count > additions(current, front)[k].index;
            assert(desired[j] == front[j]);
        } else {
            let i = k - additions(current, front).len();
            assert(additions(current, desired)[k] == last[i]);
            assert(desired[desired.len() - 1] == desired.last());
        }
    } else {
        assert(parts =~= Seq::<Seq<Slot>>::empty());
    }
}

/// Each slot of a demand's growth is among the additions.
pub proof fn lemma_growth_in_additions(current: Seq<Slot>, desired: Seq<Demand>, j: int, i: int)
    requires
        0 <= j < desired.len(),
        0 <= i < growth(current, desired[j]).len(),
    ensures
        additions(current, desired).contains(growth(current, desired[j])[i]),
    decreases desired.len(),
{
    let parts = desired.map_values(|d: Demand| growth(current, d));
    let front = desired.drop_last();
    let front_parts = front.map_values(|d: Demand| growth(current, d));
    let last = growth(current, desired.last());
    assert(parts =~= front_parts.push(last));
    front_parts.lemma_flatten_push(last);
    assert(additions(current, desired) =~= additions(current, front) + last);
    let all = additions(current, desired);
    if j == desired.len() - 1 {
        assert(all[additions(current, front).len() + i] == last[i]);
    } else {
        assert(front[j] == desired[j]);
        lemma_growth_in_additions(current, front, j, i);
        let k = choose|k: int|
            0 <= k < additions(current, front).len() && additions(current, front)[k] == growth(
                current,
                desired[j],
            )[i];
        assert(all[k] == additions(current, front)[k]);
    }
}

/// The additions are empty exactly when every demand is met by its window's
/// next index.
pub proof fn lemma_additions_empty(current: Seq<Slot>, desired: Seq<Demand>)
    ensures
        additions(current, desired).len() == 0 <==> forall|j: int|
            0 <= j < desired.len() ==> (#[trigger] desired[j]).count <= next_index(
                current,
                desired[j].window,
            ),
{
    let all = additions(current, desired);
    if all.len() == 0 {
        assert forall|j: int| 0 <= j < desired.len() implies (#[trigger] desired[j]).count
            <= next_index(current, desired[j].window) by {
            if desired[j].count > next_index(current, desired[j].window) {
                lemma_growth_in_additions(current, desired, j, 0);
            }
        }
    } else {
        lemma_additions_member(current, desired, 0);
    }
}


/// What the slots after an update hold: every slot left is wanted and was
/// either there before or added, every wanted slot is still there, and so is
/// every added slot.
pub proof fn lemma_updated_members(current: Seq<Slot>, desired: Seq<Demand>)
    ensures
        ({
            let after = updated(
                current,
                removals(current, desired),
                additions(current, desired),
            );
            &&& forall|k: int|
                0 <= k < after.len() ==> wanted(#[trigger] after[k], desired) && (current.contains(
                    after[k],
                ) || additions(current, desired).contains(after[k]))
            &&& forall|i: int|
                0 <= i < current.len() && wanted(#[trigger] current[i], desired)
                    ==> after.contains(current[i])
            &&& forall|k: int|
                0 <= k < additions(current, desired).len() ==> after.contains(
                    #[trigger] additions(current, desired)[k],
                )
        }),
{
    let gone = removals(current, desired);
    let added = additions(current, desired);
    let stays = |s: Slot| !gone.contains(s);
    let unwanted = |s: Slot| !wanted(s, desired);
    let kept = current.filter(stays);
    let after = updated(current, gone, added);
    assert(after == kept + added);
    assert forall|k: int| 0 <= k < after.len() implies wanted(#[trigger] after[k], desired) && (
    current.contains(after[k]) || added.contains(after[k])) by {
        if k < kept.len() {
            assert(after[k] == kept[k]);
            current.lemma_filter_pred(stays, k);
            assert(kept.contains(kept[k]));
            current.lemma_filter_contains_rev(stays, kept[k]);
            let i = choose|i: int| 0 <= i < current.len() && current[i] == kept[k];
            if !wanted(current[i], desired) {
                current.lemma_filter_contains(unwanted, i);
            }
        } else {
            assert(after[k] == added[k - kept.len()]);
            lemma_additions_member(current, desired, k - kept.len());
        }
    }
    assert forall|i: int|
        0 <= i < current.len() && wanted(#[trigger] current[i], desired) implies after.contains(
        current[i],
    ) by {
        if gone.contains(current[i]) {
            let g = choose|g: int| 0 <= g < gone.len() && gone[g] == current[i];
            current.lemma_filter_pred(unwanted, g);
        }
        current.lemma_filter_contains(stays, i);
        let k = choose|k: int| 0 <= k < kept.len() && kept[k] == current[i];
        assert(after[k] == kept[k]);
    }
    assert forall|k: int| 0 <= k < added.len() implies after.contains(#[trigger] added[k]) by {
        assert(after[kept.len() + k] == added[k]);
    }
}

/// Taking the difference again after an update removes nothing, and it adds
/// nothing exactly when the first difference settles.
///
/// It can still add where an activity stood at or above a demand's last index
/// and every such activity was removed: the window then restarts from what
/// remains of it.
pub proof fn lemma_second_difference(current: Seq<Slot>, desired: Seq<Demand>)
    ensures
        ({
            let after = updated(
                current,
                removals(current, desired),
                additions(current, desired),
            );
            &&& removals(after, desired) == Seq::<Slot>::empty()
            &&& additions(after, desired) == Seq::<Slot>::empty() <==> settles(current, desired)
        }),
{
    let added = additions(current, desired);
    let after = updated(current, removals(current, desired), added);
    let unwanted = |s: Slot| !wanted(s, desired);
    lemma_updated_members(current, desired);
    if removals(after, desired).len() > 0 {
        let first = removals(after, desired)[0];
        after.lemma_filter_pred(unwanted, 0);
        assert(removals(after, desired).contains(first));
        after.lemma_filter_contains_rev(unwanted, first);
    }
    assert(removals(after, desired) =~= Seq::<Slot>::empty());
    lemma_additions_empty(after, desired);
    if settles(current, desired) {
        assert forall|j: int| 0 <= j < desired.len() implies (#[trigger] desired[j]).count
            <= next_index(after, desired[j].window) by {
            let d = desired[j];
            lemma_next_index(after, d.window);
            if d.count == 0 {
            } else if next_index(current, d.window) < d.count {
                let grown = growth(current, d);
                let top = grown[grown.len() - 1];
                lemma_growth_in_additions(current, desired, j, grown.len() - 1);
                let k = choose|k: int| 0 <= k < added.len() && added[k] == top;
                assert(after.contains(added[k]));
                let at = choose|at: int| 0 <= at < after.len() && after[at] == top;
                assert(after[at].window == d.window);
            } else {
                let i = choose|i: int|
                    0 <= i < current.len() && (#[trigger] current[i]).window == d.window
                        && current[i].index + 1 >= d.count && wanted(current[i], desired);
                assert(after.contains(current[i]));
                let at = choose|at: int| 0 <= at < after.len() && after[at] == current[i];
                assert(after[at].window == d.window);
            }
        }
    }
    if additions(after, desired).len() == 0 {
        assert forall|j: int| 0 <= j < desired.len() implies {
            let d = #[trigger] desired[j];
            ||| d.count == 0
            ||| next_index(current, d.window) < d.count
            ||| exists|i: int|
                0 <= i < current.len() && (#[trigger] current[i]).window == d.window && current[i].index
                    + 1 >= d.count && wanted(current[i], desired)
        } by {
            let d = desired[j];
            if d.count > 0 && next_index(current, d.window) >= d.count {
                lemma_next_index(after, d.window);
                lemma_next_index(current, d.window);
                let k = choose|k: int|
                    0 <= k < after.len() && (#[trigger] after[k]).window == d.window && after[k].index
                        + 1 == next_index(after, d.window);
                if current.contains(after[k]) {
                    let i = choose|i: int| 0 <= i < current.len() && current[i] == after[k];
                    assert(current[i].window == d.window && current[i].index + 1 >= d.count
                        && wanted(current[i], desired));
                } else {
                    let m = choose|m: int| 0 <= m < added.len() && added[m] == after[k];
                    lemma_additions_member(current, desired, m);
                    let source = choose|source: int|
                        0 <= source < desired.len() && (#[trigger] desired[source]).window
                            == added[m].window && desired[source].count > added[m].index;
                    let i = choose|i: int|
                        0 <= i < current.len() && (#[trigger] current[i]).window == d.window
                            && current[i].index + 1 == next_index(current, d.window);
                    assert(desired[source].window == current[i].window && desired[source].count
                        > current[i].index);
                    assert(wanted(current[i], desired));
                }
            }
        }
    }
    assert(additions(after, desired).len() == 0 <==> additions(after, desired) =~= Seq::<
        Slot,
    >::empty());
}

/// The difference is idempotent where it settles: taken again after the
/// update, with the same demands, it removes nothing and adds nothing.
pub proof fn lemma_difference_is_idempotent(current: Seq<Slot>, desired: Seq<Demand>)
    requires
        settles(current, desired),
    ensures
        ({
            let after = updated(
                current,
                removals(current, desired),
                additions(current, desired),
            );
            &&& removals(after, desired) == Seq::<Slot>::empty()
            &&& additions(after, desired) == Seq::<Slot>::empty()
        }),
{
    lemma_second_difference(current, desired);
}

/// No slot is both removed and added by one difference.
pub proof fn lemma_removed_not_added(current: Seq<Slot>, desired: Seq<Demand>)
    ensures
        forall|i: int, k: int|
            0 <= i < removals(current, desired).len() && 0 <= k < additions(current, desired).len()
                ==> #[trigger] removals(current, desired)[i] != #[trigger] additions(
                current,
                desired,
            )[k],
{
    let gone = removals(current, desired);
    assert forall|i: int, k: int|
        0 <= i < gone.len() && 0 <= k < additions(current, desired).len() implies #[trigger] gone[i]
        != #[trigger] additions(current, desired)[k] by {
        assert(gone.contains(gone[i]));
        current.lemma_filter_contains_rev(|s: Slot| !wanted(s, desired), gone[i]);
        let at = choose|at: int| 0 <= at < current.len() && current[at] == gone[i];
        lemma_next_index(current, current[at].window);
        lemma_additions_member(current, desired, k);
    }
}

/// The slots of the superseded activities are the removals of the
/// activities' slots.
pub proof fn lemma_superseded_slots(current: Seq<ActivityIdentifier>, desired: Seq<Demand>)
    ensures
        slots(superseded(current, desired)) == removals(slots(current), desired),
    decreases current.len(),
{
    let unwanted_id = |a: ActivityIdentifier| !wanted(a.slot(), desired);
    let unwanted = |s: Slot| !wanted(s, desired);
    if current.len() == 0 {
        assert(slots(current) =~= Seq::<Slot>::empty());
        assert(superseded(current, desired) =~= Seq::<ActivityIdentifier>::empty());
        assert(slots(superseded(current, desired)) =~= Seq::<Slot>::empty());
        assert(removals(slots(current), desired) =~= Seq::<Slot>::empty());
    } else {
        let front = current.drop_last();
        let last = current.last();
        lemma_superseded_slots(front, desired);
        assert(current =~= front.push(last));
        front.lemma_filter_push(last, unwanted_id);
        assert(slots(current) =~= slots(front).push(last.slot()));
        slots(front).lemma_filter_push(last.slot(), unwanted);
        if !wanted(last.slot(), desired) {
            assert(slots(superseded(front, desired).push(last)) =~= slots(
                superseded(front, desired),
            ).push(last.slot()));
        }
    }
}

/// Whether `id` equals one of the listed activities.
pub open spec fn listed(list: Seq<&ActivityIdentifier>, id: ActivityIdentifier) -> bool {
    exists|i: int| 0 <= i < list.len() && (#[trigger] list[i])@ == id@
}

/// The activities that an update leaves in place: those not listed for
/// removal, in their own order.
pub open spec fn surviving(current: Seq<ActivityIdentifier>, to_remove: Seq<&ActivityIdentifier>) -> Seq<
    ActivityIdentifier,
> {
    current.filter(|a: ActivityIdentifier| !listed(to_remove, a))
}

/// A filter and a map commute where the two predicates agree on the items.
proof fn lemma_filter_map_commute<A, B>(
    items: Seq<A>,
    keep: spec_fn(A) -> bool,
    image: spec_fn(A) -> B,
    keep_image: spec_fn(B) -> bool,
)
    requires
        forall|i: int| 0 <= i < items.len() ==> keep(#[trigger] items[i]) == keep_image(image(items[i])),
    ensures
        items.filter(keep).map_values(image) == items.map_values(image).filter(keep_image),
    decreases items.len(),
{
    if items.len() == 0 {
        assert(items.filter(keep) =~= Seq::<A>::empty());
        assert(items.map_values(image) =~= Seq::<B>::empty());
        assert(items.map_values(image).filter(keep_image) =~= Seq::<B>::empty());
        assert(items.filter(keep).map_values(image) =~= Seq::<B>::empty());
    } else {
        let front = items.drop_last();
        let last = items.last();
        assert forall|i: int| 0 <= i < front.len() implies keep(#[trigger] front[i]) == keep_image(
            image(front[i]),
        ) by {
            assert(front[i] == items[i]);
        }
        lemma_filter_map_commute(front, keep, image, keep_image);
        assert(items =~= front.push(last));
        assert(keep(items[items.len() - 1]) == keep_image(image(last)));
        front.lemma_filter_push(last, keep);
        assert(items.map_values(image) =~= front.map_values(image).push(image(last)));
        front.map_values(image).lemma_filter_push(image(last), keep_image);
        if keep(last) {
            assert(front.filter(keep).push(last).map_values(image) =~= front.filter(
                keep,
            ).map_values(image).push(image(last)));
        }
    }
}

/// Where the activities listed for removal are the superseded ones, the
/// slots of the surviving activities are the slots that the update leaves.
pub proof fn lemma_surviving_slots(
    current: Seq<ActivityIdentifier>,
    to_remove: Seq<&ActivityIdentifier>,
    desired: Seq<Demand>,
)
    requires
        to_remove.map_values(|a: &ActivityIdentifier| *a) == superseded(current, desired),
    ensures
        slots(surviving(current, to_remove)) == slots(current).filter(
            |s: Slot| !removals(slots(current), desired).contains(s),
        ),
{
    let gone = removals(slots(current), desired);
    let unwanted = |s: Slot| !wanted(s, desired);
    let unwanted_id = |a: ActivityIdentifier| !wanted(a.slot(), desired);
    let held = to_remove.map_values(|a: &ActivityIdentifier| *a);
    assert forall|i: int| 0 <= i < current.len() implies !listed(to_remove, #[trigger] current[i])
        == !gone.contains(current[i].slot()) by {
        let a = current[i];
        assert(slots(current)[i] == a.slot());
        if listed(to_remove, a) {
            let at = choose|at: int| 0 <= at < to_remove.len() && (#[trigger] to_remove[at])@ == a@;
            assert(held[at] == *to_remove[at]);
            current.lemma_filter_pred(unwanted_id, at);
            slots(current).lemma_filter_contains(unwanted, i);
        }
        if gone.contains(a.slot()) {
            let g = choose|g: int| 0 <= g < gone.len() && gone[g] == a.slot();
            slots(current).lemma_filter_pred(unwanted, g);
            current.lemma_filter_contains(unwanted_id, i);
            let at = choose|at: int| 0 <= at < held.len() && held[at] == a;
            assert(to_remove[at]@ == a@);
        }
    }
    lemma_filter_map_commute(
        current,
        |a: ActivityIdentifier| !listed(to_remove, a),
        |a: ActivityIdentifier| a.slot(),
        |s: Slot| !gone.contains(s),
    );
}

/// Two filters that agree on the items of a list keep the same items.
proof fn lemma_filter_agree<A>(items: Seq<A>, keep: spec_fn(A) -> bool, other: spec_fn(A) -> bool)
    requires
        forall|i: int| 0 <= i < items.len() ==> keep(#[trigger] items[i]) == other(items[i]),
    ensures
        items.filter(keep) == items.filter(other),
    decreases items.len(),
{
    if items.len() == 0 {
        assert(items.filter(keep) =~= items.filter(other));
    } else {
        let front = items.drop_last();
        let last = items.last();
        assert forall|i: int| 0 <= i < front.len() implies keep(#[trigger] front[i]) == other(
            front[i],
        ) by {
            assert(front[i] == items[i]);
        }
        lemma_filter_agree(front, keep, other);
        assert(items =~= front.push(last));
        assert(keep(items[items.len() - 1]) == other(last));
        front.lemma_filter_push(last, keep);
        front.lemma_filter_push(last, other);
    }
}

/// Where the activities listed for removal are the superseded ones, the
/// surviving activities are the retained ones.
pub proof fn lemma_surviving_retained(
    current: Seq<ActivityIdentifier>,
    to_remove: Seq<&ActivityIdentifier>,
    desired: Seq<Demand>,
)
    requires
        to_remove.map_values(|a: &ActivityIdentifier| *a) == superseded(current, desired),
    ensures
        surviving(current, to_remove) == retained(current, desired),
{
    let unwanted_id = |a: ActivityIdentifier| !wanted(a.slot(), desired);
    let held = to_remove.map_values(|a: &ActivityIdentifier| *a);
    assert forall|i: int| 0 <= i < current.len() implies !listed(to_remove, #[trigger] current[i])
        == wanted(current[i].slot(), desired) by {
        let a = current[i];
        if listed(to_remove, a) {
            let at = choose|at: int| 0 <= at < to_remove.len() && (#[trigger] to_remove[at])@ == a@;
            assert(held[at] == *to_remove[at]);
            current.lemma_filter_pred(unwanted_id, at);
        }
        if !wanted(a.slot(), desired) {
            current.lemma_filter_contains(unwanted_id, i);
            let at = choose|at: int| 0 <= at < held.len() && held[at] == a;
            assert(to_remove[at]@ == a@);
        }
    }
    lemma_filter_agree(
        current,
        |a: ActivityIdentifier| !listed(to_remove, a),
        |a: ActivityIdentifier| wanted(a.slot(), desired),
    );
}

/// The difference of the activities after an update, in terms of the
/// activities themselves: where `to_remove` lists the superseded activities
/// and `next` holds the surviving ones followed by one activity for each
/// added slot, a second difference supersedes nothing, and it adds nothing
/// exactly when the first difference settles.
pub proof fn lemma_difference_after_update(
    current: Seq<ActivityIdentifier>,
    to_remove: Seq<&ActivityIdentifier>,
    next: Seq<ActivityIdentifier>,
    desired: Seq<Demand>,
)
    requires
        to_remove.map_values(|a: &ActivityIdentifier| *a) == superseded(current, desired),
        slots(next) == slots(surviving(current, to_remove)) + additions(slots(current), desired),
    ensures
        superseded(next, desired) == Seq::<ActivityIdentifier>::empty(),
        additions(slots(next), desired) == Seq::<Slot>::empty() <==> settles(
            slots(current),
            desired,
        ),
{
    lemma_surviving_slots(current, to_remove, desired);
    lemma_second_difference(slots(current), desired);
    lemma_superseded_slots(next, desired);
    assert(slots(next) == updated(
        slots(current),
        removals(slots(current), desired),
        additions(slots(current), desired),
    ));
    assert(slots(superseded(next, desired)).len() == 0);
    assert(superseded(next, desired) =~= Seq::<ActivityIdentifier>::empty());
}

/// Whether some entry of `desired` wants the slot of `id`.
fn is_wanted(id: &ActivityIdentifier, desired: &Vec<(&str, usize)>) -> (found: bool)
    ensures
        found == wanted(id.slot(), demands(desired@)),
{
    let window = id.window_name();
    let index = id.instance();
    let mut j: usize = 0;
    while j < desired.len()
        invariant
            j <= desired.len(),
            window@ == id.slot().window,
            index == id.slot().index,
            forall|k: int|
                0 <= k < j ==> !((#[trigger] demands(desired@)[k]).window == id.slot().window
                    && demands(desired@)[k].count > id.slot().index),
        decreases desired.len() - j,
    {
        let entry = &desired[j];
        if text_eq(entry.0, window) && entry.1 > index {
            assert(demands(desired@)[j as int].window == id.slot().window);
            return true;
        }
        j += 1;
    }
    false
}

/// The highest index in use on `window`, if the window has any activity.
fn highest_index(current: &Vec<ActivityIdentifier>, window: &str) -> (highest: Option<usize>)
    ensures
        next_index(slots(current@), window@) == (match highest {
            Some(index) => index + 1,
            None => 0,
        }),
{
    let mut highest: Option<usize> = None;
    let mut i: usize = 0;
    assert(slots(current@).take(0) =~= Seq::<Slot>::empty());
    while i < current.len()
        invariant
            i <= current.len(),
            next_index(slots(current@).take(i as int), window@) == (match highest {
                Some(index) => index + 1,
                None => 0,
            }),
        decreases current.len() - i,
    {
        let id = &current[i];
        proof {
            let seen = slots(current@).take(i + 1);
            assert(seen.drop_last() =~= slots(current@).take(i as int));
            assert(seen.last() == id.slot());
        }
        if text_eq(id.window_name(), window) {
            let index = id.instance();
            highest = match highest {
                Some(best) => if index > best {
                    Some(index)
                } else {
                    Some(best)
                },
                None => Some(index),
            };
        }
        i += 1;
    }
    assert(slots(current@).take(current.len() as int) =~= slots(current@));
    highest
}

/// The `(window, index)` pairs to create so that each window reaches its
/// desired count.
fn activities_to_add<'a>(
    current_state: &Vec<ActivityIdentifier>,
    desired_state: &'a Vec<(&'a str, usize)>,
) -> (to_add: Vec<(&'a str, usize)>)
    ensures
        placed(to_add@) == additions(slots(current_state@), demands(desired_state@)),
{
    let ghost have = slots(current_state@);
    let ghost want = demands(desired_state@);
    let mut to_add: Vec<(&'a str, usize)> = Vec::new();
    let mut j: usize = 0;
    assert(want.take(0).map_values(|d: Demand| growth(have, d)) =~= Seq::<Seq<Slot>>::empty());
    while j < desired_state.len()
        invariant
            j <= desired_state.len(),
            have == slots(current_state@),
            want == demands(desired_state@),
            placed(to_add@) == additions(have, want.take(j as int)),
        decreases desired_state.len() - j,
    {
        let window: &'a str = desired_state[j].0;
        let count: usize = desired_state[j].1;
        let ghost demand = want[j as int];
        let ghost grown = growth(have, demand);
        let ghost done = additions(have, want.take(j as int));
        proof {
            let parts = want.take(j as int).map_values(|d: Demand| growth(have, d));
            assert(want.take(j + 1).map_values(|d: Demand| growth(have, d)) =~= parts.push(grown));
            parts.lemma_flatten_push(grown);
            assert(additions(have, want.take(j + 1)) =~= done + grown);
        }
        match highest_index(current_state, window) {
            Some(highest) => {
                if highest < count {
                    let mut i: usize = highest + 1;
                    while i < count
                        invariant
                            highest + 1 == next_index(have, demand.window),
                            highest + 1 <= i <= count,
                            demand == (Demand { window: window@, count: count as nat }),
                            grown == growth(have, demand),
                            placed(to_add@) == done + grown.take(i - (highest + 1)),
                        decreases count - i,
                    {
                        let ghost before = to_add@;
                        let ghost n = i - (highest + 1);
                        to_add.push((window, i));
                        assert(placed(to_add@) =~= placed(before).push(grown[n]));
                        assert(grown.take(n + 1) =~= grown.take(n).push(grown[n]));
                        i += 1;
                    }
                    assert(grown.take(count - (highest + 1)) =~= grown);
                } else {
                    assert(grown =~= Seq::<Slot>::empty());
                    assert(placed(to_add@) =~= done + grown);
                }
            },
            None => {
                let mut i: usize = 0;
                while i < count
                    invariant
                        0 == next_index(have, demand.window),
                        i <= count,
                        demand == (Demand { window: window@, count: count as nat }),
                        grown == growth(have, demand),
                        placed(to_add@) == done + grown.take(i as int),
                    decreases count - i,
                {
                    let ghost before = to_add@;
                    to_add.push((window, i));
                    assert(placed(to_add@) =~= placed(before).push(grown[i as int]));
                    assert(grown.take(i + 1) =~= grown.take(i as int).push(grown[i as int]));
                    i += 1;
                }
                assert(grown.take(count as int) =~= grown);
            },
        }
        j += 1;
    }
    assert(want.take(desired_state.len() as int) =~= want);
    to_add
}

/// The activities to remove and the `(window, index)` pairs to create to get
/// from `current_state` to `desired_state`, a list of `(window, count)` pairs.
///
/// An activity is removed when no entry for its window has a count above its
/// index. For each entry in turn, the indices from one past the window's
/// highest current index (from zero where the window has no activity) up to
/// the entry's count are created. The highest index is taken before any
/// removal, so no index is both removed and created.
pub fn activities_to_update<'a>(
    current_state: &'a Vec<ActivityIdentifier>,
    desired_state: &'a Vec<(&'a str, usize)>,
) -> (update: (Vec<&'a ActivityIdentifier>, Vec<(&'a str, usize)>))
    ensures
        update.0@.map_values(|a: &ActivityIdentifier| *a) == superseded(
            current_state@,
            demands(desired_state@),
        ),
        placed(update.1@) == additions(slots(current_state@), demands(desired_state@)),
        forall|i: int, k: int|
            0 <= i < update.0@.len() && 0 <= k < update.1@.len() ==> (#[trigger] update.0@[i]).slot()
                != #[trigger] placed(update.1@)[k],
{
    let ghost want = demands(desired_state@);
    let mut to_remove: Vec<&'a ActivityIdentifier> = Vec::new();
    let mut i: usize = 0;
    assert(current_state@.take(0) =~= Seq::<ActivityIdentifier>::empty());
    while i < current_state.len()
        invariant
            i <= current_state.len(),
            want == demands(desired_state@),
            to_remove@.map_values(|a: &ActivityIdentifier| *a) == superseded(
                current_state@.take(i as int),
                want,
            ),
        decreases current_state.len() - i,
    {
        let act = &current_state[i];
        let ghost seen = current_state@.take(i as int);
        proof {
            assert(current_state@.take(i + 1) =~= seen.push(*act));
            seen.lemma_filter_push(*act, |a: ActivityIdentifier| !wanted(a.slot(), want));
        }
        if !is_wanted(act, desired_state) {
            let ghost before = to_remove@;
            to_remove.push(act);
            assert(to_remove@.map_values(|a: &ActivityIdentifier| *a) =~= before.map_values(
                |a: &ActivityIdentifier| *a,
            ).push(*act));
        }
        i += 1;
    }
    assert(current_state@.take(current_state.len() as int) =~= current_state@);
    let to_add = activities_to_add(current_state, desired_state);
    proof {
        let gone = superseded(current_state@, want);
        assert forall|i: int, k: int|
            0 <= i < to_remove@.len() && 0 <= k < to_add@.len() implies (#[trigger] to_remove@[i]).slot()
            != #[trigger] placed(to_add@)[k] by {
            let held = to_remove@.map_values(|a: &ActivityIdentifier| *a)[i];
            assert(held == gone[i]);
            assert(gone.contains(held));
            current_state@.lemma_filter_contains_rev(
                |a: ActivityIdentifier| !wanted(a.slot(), want),
                held,
            );
            let at = choose|at: int| 0 <= at < current_state@.len() && current_state@[at] == held;
            assert(slots(current_state@)[at] == held.slot());
            lemma_next_index(slots(current_state@), held.slot().window);
            lemma_additions_member(slots(current_state@), want, k);
        }
    }
    (to_remove, to_add)
}


/// The names of the activities to remove and the `(window, index)` pairs to
/// create to get from `current` to `desired`, chosen as
/// [`activities_to_update`] chooses them.
pub fn acitvities_to_update<'a>(
    current: &'a Vec<ActivityIdentifier>,
    desired: &'a Vec<(&'a str, usize)>,
) -> (update: (Vec<&'a str>, Vec<(&'a str, usize)>))
    ensures
        update.0@.map_values(|name: &str| name@) == superseded(
            current@,
            demands(desired@),
        ).map_values(|a: ActivityIdentifier| a@.activity),
        placed(update.1@) == additions(slots(current@), demands(desired@)),
{
    let (gone, to_add) = activities_to_update(current, desired);
    let ghost held = gone@.map_values(|a: &ActivityIdentifier| *a);
    let mut to_remove: Vec<&'a str> = Vec::new();
    let mut i: usize = 0;
    while i < gone.len()
        invariant
            i <= gone.len(),
            held == gone@.map_values(|a: &ActivityIdentifier| *a),
            to_remove@.map_values(|name: &str| name@) == held.take(i as int).map_values(
                |a: ActivityIdentifier| a@.activity,
            ),
        decreases gone.len() - i,
    {
        let ghost before = to_remove@;
        let act: &'a ActivityIdentifier = gone[i];
        to_remove.push(act.activity());
        assert(to_remove@.map_values(|name: &str| name@) =~= before.map_values(
            |name: &str| name@,
        ).push(held[i as int]@.activity));
        assert(held.take(i + 1) =~= held.take(i as int).push(held[i as int]));
        assert(held.take(i + 1).map_values(|a: ActivityIdentifier| a@.activity) =~= held.take(
            i as int,
        ).map_values(|a: ActivityIdentifier| a@.activity).push(held[i as int]@.activity));
        i += 1;
    }
    assert(held.take(gone.len() as int) =~= held);
    (to_remove, to_add)
}

/// Whether `id` equals one of the activities in `list`.
pub(crate) fn is_listed(list: &Vec<&ActivityIdentifier>, id: &ActivityIdentifier) -> (found: bool)
    ensures
        found == listed(list@, *id),
{
    let mut i: usize = 0;
    while i < list.len()
        invariant
            i <= list.len(),
            forall|k: int| 0 <= k < i ==> (#[trigger] list@[k])@ != id@,
        decreases list.len() - i,
    {
        if *list[i] == *id {
            return true;
        }
        i += 1;
    }
    false
}

/// The activities after an update: those of `current` that are not listed in
/// `to_remove`, in their order, followed by one new activity of `module` and
/// kind `activity` for each pair of `to_add`.
pub fn apply_update(
    current: &Vec<ActivityIdentifier>,
    to_remove: &Vec<&ActivityIdentifier>,
    to_add: &Vec<(&str, usize)>,
    module: &str,
    activity: &str,
) -> (next: Vec<ActivityIdentifier>)
    ensures
        next@.len() == surviving(current@, to_remove@).len() + to_add@.len(),
        forall|k: int|
            0 <= k < surviving(current@, to_remove@).len() ==> #[trigger] next@[k] == surviving(
                current@,
                to_remove@,
            )[k],
        forall|k: int|
            0 <= k < to_add@.len() ==> (#[trigger] next@[surviving(current@, to_remove@).len() + k])@
                == (ActivityIdentifierView {
                module: module@,
                activity: activity@,
                window_name: to_add@[k].0@,
                instance: to_add@[k].1 as nat,
            }),
        slots(next@) == slots(surviving(current@, to_remove@)) + placed(to_add@),
{
    let mut next: Vec<ActivityIdentifier> = Vec::new();
    let mut i: usize = 0;
    assert(current@.take(0) =~= Seq::<ActivityIdentifier>::empty());
    while i < current.len()
        invariant
            i <= current.len(),
            next@ == surviving(current@.take(i as int), to_remove@),
        decreases current.len() - i,
    {
        let act = &current[i];
        proof {
            assert(current@.take(i + 1) =~= current@.take(i as int).push(*act));
            current@.take(i as int).lemma_filter_push(
                *act,
                |a: ActivityIdentifier| !listed(to_remove@, a),
            );
        }
        if !is_listed(to_remove, act) {
            next.push(act.clone());
        }
        i += 1;
    }
    assert(current@.take(current.len() as int) =~= current@);
    let ghost kept = next@;
    let mut k: usize = 0;
    while k < to_add.len()
        invariant
            k <= to_add.len(),
            kept == surviving(current@, to_remove@),
            next@.len() == kept.len() + k,
            forall|n: int| 0 <= n < kept.len() ==> #[trigger] next@[n] == kept[n],
            forall|n: int|
                0 <= n < k ==> (#[trigger] next@[kept.len() + n])@ == (ActivityIdentifierView {
                    module: module@,
                    activity: activity@,
                    window_name: to_add@[n].0@,
                    instance: to_add@[n].1 as nat,
                }),
        decreases to_add.len() - k,
    {
        let entry = &to_add[k];
        next.push(ActivityIdentifier::new(module, activity, entry.0, entry.1));
        k += 1;
    }
    assert(slots(next@) =~= slots(kept) + placed(to_add@)) by {
        assert forall|n: int| 0 <= n < next@.len() implies slots(next@)[n] == (slots(kept) + placed(
            to_add@,
        ))[n] by {
            if n >= kept.len() {
                assert(next@[kept.len() + (n - kept.len())]@.window_name == to_add@[n
                    - kept.len()].0@);
            }
        }
    }
    next
}

} // verus!
