//! The activities that are registered with the user interface.

use crate::diff::{is_listed, listed, surviving};
use crate::identifier::{ActivityIdentifier, ActivityIdentifierView};
use vstd::prelude::*;

verus! {

/// The views of a list of activities.
pub open spec fn views(ids: Seq<ActivityIdentifier>) -> Seq<ActivityIdentifierView> {
    ids.map_values(|id: ActivityIdentifier| id@)
}

/// The registered activities, in the order of their registration. No
/// activity is registered twice.
#[derive(Debug)]
pub struct ActivityRegistry {
    entries: Vec<ActivityIdentifier>,
}

impl ActivityRegistry {
    /// The registered activities, in the order of their registration.
    pub closed spec fn ids(&self) -> Seq<ActivityIdentifier> {
        self.entries@
    }

    #[verifier::type_invariant]
    closed spec fn wf(&self) -> bool {
        views(self.entries@).no_duplicates()
    }

    /// Whether `id` is registered.
    pub open spec fn holds(&self, id: ActivityIdentifierView) -> bool {
        views(self.ids()).contains(id)
    }

    /// The registry without any activity.
    pub fn new() -> (registry: ActivityRegistry)
        ensures
            registry.ids() == Seq::<ActivityIdentifier>::empty(),
    {
        ActivityRegistry { entries: Vec::new() }
    }

    /// The number of registered activities.
    pub fn len(&self) -> (count: usize)
        ensures
            count == self.ids().len(),
            views(self.ids()).no_duplicates(),
    {
        proof {
            use_type_invariant(self);
        }
        self.entries.len()
    }

    /// The position of `id` among the entries.
    fn find(&self, id: &ActivityIdentifier) -> (found: Option<usize>)
        ensures
            match found {
                Some(i) => i < self.ids().len() && self.ids()[i as int]@ == id@,
                None => !self.holds(id@),
            },
    {
        let mut i: usize = 0;
        while i < self.entries.len()
            invariant
                i <= self.entries.len(),
                forall|k: int| 0 <= k < i ==> self.ids()[k]@ != id@,
            decreases self.entries.len() - i,
        {
            if self.entries[i] == *id {
                return Some(i);
            }
            i += 1;
        }
        assert forall|k: int| 0 <= k < views(self.ids()).len() implies views(self.ids())[k]
            != id@ by {
            assert(views(self.ids())[k] == self.ids()[k]@);
        }
        None
    }

    /// Whether `id` is registered.
    pub fn contains(&self, id: &ActivityIdentifier) -> (found: bool)
        ensures
            found == self.holds(id@),
    {
        match self.find(id) {
            Some(i) => {
                assert(views(self.ids())[i as int] == id@);
                true
            },
            None => false,
        }
    }

    /// Registers `id` behind the others, unless it is registered already.
    /// Says whether it was registered now.
    pub fn insert(&mut self, id: ActivityIdentifier) -> (inserted: bool)
        ensures
            inserted == !old(self).holds(id@),
            final(self).ids() == if inserted {
                old(self).ids().push(id)
            } else {
                old(self).ids()
            },
            final(self).holds(id@),
    {
        proof {
            use_type_invariant(&*self);
        }
        if self.contains(&id) {
            return false;
        }
        let ghost before = self.ids();
        let ghost added = id;
        let mut taken = ActivityRegistry::new();
        core::mem::swap(self, &mut taken);
        let mut entries = taken.entries;
        entries.push(id);
        proof {
            assert(views(entries@) =~= views(before).push(added@));
            assert(views(entries@)[before.len() as int] == added@);
        }
        *self = ActivityRegistry { entries };
        true
    }

    /// Takes `id` out of the registry. Says whether it was registered.
    pub fn remove(&mut self, id: &ActivityIdentifier) -> (removed: bool)
        ensures
            removed == old(self).holds(id@),
            final(self).ids() == old(self).ids().filter(|a: ActivityIdentifier| a@ != id@),
            !final(self).holds(id@),
            !removed ==> final(self).ids() == old(self).ids(),
    {
        proof {
            use_type_invariant(&*self);
        }
        let ghost before = self.ids();
        let ghost differs = |a: ActivityIdentifier| a@ != id@;
        let removed = self.contains(id);
        let mut taken = ActivityRegistry::new();
        core::mem::swap(self, &mut taken);
        let old_entries = taken.entries;
        let mut entries: Vec<ActivityIdentifier> = Vec::new();
        let mut i: usize = 0;
        assert(before.take(0) =~= Seq::<ActivityIdentifier>::empty());
        while i < old_entries.len()
            invariant
                i <= old_entries.len(),
                old_entries@ == before,
                entries@ == before.take(i as int).filter(|a: ActivityIdentifier| a@ != id@),
            decreases old_entries.len() - i,
        {
            let act = &old_entries[i];
            proof {
                assert(before.take(i + 1) =~= before.take(i as int).push(*act));
                before.take(i as int).lemma_filter_push(*act, |a: ActivityIdentifier| a@ != id@);
            }
            if !(*act == *id) {
                entries.push(act.clone());
            }
            i += 1;
        }
        proof {
            assert(before.take(before.len() as int) =~= before);
            lemma_filter_no_duplicates(before, differs);
            let after = before.filter(differs);
            assert forall|k: int| 0 <= k < after.len() implies views(after)[k] != id@ by {
                before.lemma_filter_pred(differs, k);
            }
            if !removed {
                assert forall|k: int| 0 <= k < before.len() implies differs(
                    #[trigger] before[k],
                ) by {
                    assert(views(before)[k] == before[k]@);
                }
                lemma_filter_keeps_all(before, differs);
            }
        }
        *self = ActivityRegistry { entries };
        removed
    }

    /// Takes every activity listed in `to_remove` out of the registry.
    pub fn remove_all(&mut self, to_remove: &Vec<&ActivityIdentifier>)
        ensures
            final(self).ids() == surviving(old(self).ids(), to_remove@),
    {
        proof {
            use_type_invariant(&*self);
        }
        let ghost before = self.ids();
        let ghost unlisted = |a: ActivityIdentifier| !listed(to_remove@, a);
        let mut taken = ActivityRegistry::new();
        core::mem::swap(self, &mut taken);
        let old_entries = taken.entries;
        let mut entries: Vec<ActivityIdentifier> = Vec::new();
        let mut i: usize = 0;
        assert(before.take(0) =~= Seq::<ActivityIdentifier>::empty());
        while i < old_entries.len()
            invariant
                i <= old_entries.len(),
                old_entries@ == before,
                entries@ == surviving(before.take(i as int), to_remove@),
            decreases old_entries.len() - i,
        {
            let act = &old_entries[i];
            proof {
                assert(before.take(i + 1) =~= before.take(i as int).push(*act));
                before.take(i as int).lemma_filter_push(
                    *act,
                    |a: ActivityIdentifier| !listed(to_remove@, a),
                );
            }
            let found = is_listed(to_remove, act);
            if !found {
                entries.push(act.clone());
            }
            i += 1;
        }
        proof {
            assert(before.take(before.len() as int) =~= before);
            lemma_filter_no_duplicates(before, unlisted);
        }
        *self = ActivityRegistry { entries };
    }

    /// The registered activities, in the order of their registration.
    pub fn list_activities(&self) -> (list: Vec<ActivityIdentifier>)
        ensures
            list@ == self.ids(),
    {
        let mut list: Vec<ActivityIdentifier> = Vec::new();
        let mut i: usize = 0;
        while i < self.entries.len()
            invariant
                i <= self.entries.len(),
                list@ == self.ids().take(i as int),
            decreases self.entries.len() - i,
        {
            list.push(self.entries[i].clone());
            assert(self.ids().take(i + 1) =~= self.ids().take(i as int).push(self.ids()[i as int]));
            i += 1;
        }
        assert(self.ids().take(self.ids().len() as int) =~= self.ids());
        list
    }
}

/// A filter that every item passes changes nothing.
proof fn lemma_filter_keeps_all<A>(list: Seq<A>, keep: spec_fn(A) -> bool)
    requires
        forall|i: int| 0 <= i < list.len() ==> keep(#[trigger] list[i]),
    ensures
        list.filter(keep) == list,
    decreases list.len(),
{
    if list.len() == 0 {
        assert(list.filter(keep) =~= list);
    } else {
        let front = list.drop_last();
        assert(list =~= front.push(list.last()));
        front.lemma_filter_push(list.last(), keep);
        lemma_filter_keeps_all(front, keep);
    }
}

/// A filter leaves identifiers with distinct views distinct.
proof fn lemma_filter_no_duplicates(
    list: Seq<ActivityIdentifier>,
    keep: spec_fn(ActivityIdentifier) -> bool,
)
    requires
        views(list).no_duplicates(),
    ensures
        views(list.filter(keep)).no_duplicates(),
    decreases list.len(),
{
    if list.len() == 0 {
        assert(list.filter(keep) =~= list);
    } else {
        let front = list.drop_last();
        let last = list.last();
        assert(list =~= front.push(last));
        front.lemma_filter_push(last, keep);
        assert(views(front) =~= views(list).drop_last());
        lemma_filter_no_duplicates(front, keep);
        if keep(last) {
            let kept = front.filter(keep);
            assert(views(kept.push(last)) =~= views(kept).push(last@));
            assert forall|k: int| 0 <= k < kept.len() implies views(kept)[k] != last@ by {
                assert(kept.contains(kept[k]));
                front.lemma_filter_contains_rev(keep, kept[k]);
                let at = choose|at: int| 0 <= at < front.len() && front[at] == kept[k];
                assert(views(list)[at] == kept[k]@);
                assert(views(list)[list.len() - 1] == last@);
            }
        }
    }
}

} // verus!
