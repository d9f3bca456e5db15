//! The single consumer of registration events.
//!
//! Watchers say when an activity should be on screen and when it should
//! not. The coordinator is the only writer of the registry: it decides for
//! each event whether anything changes, so that an event that arrives twice
//! or too late changes nothing.

use crate::config::power::{PowerConfig, PowerConfigMain, PowerConfigMainView, PowerConfigView};
use crate::identifier::ActivityIdentifier;
use crate::registry::ActivityRegistry;
use vstd::prelude::*;

verus! {

/// A watcher's word on an activity: whether it should be registered. Events
/// are passed on and never stored.
#[derive(Debug, Clone, PartialEq, Eq)]
pub struct RegistrationEvent {
    pub id: ActivityIdentifier,
    pub register: bool,
}

/// What the caller does after a registration event.
#[derive(Debug, PartialEq, Eq)]
pub enum Registration {
    /// The activity was registered: tell the user interface to add its
    /// widget, then apply `config` to the activity.
    Add { config: PowerConfig },
    /// The activity was unregistered: tell the user interface to remove its
    /// widget.
    Remove,
    /// Nothing changed: the activity was registered, or unregistered,
    /// already.
    Ignore,
    /// The activity is not known here: the event is dropped.
    NotFound,
}

/// What a [`Registration`] holds, as mathematical values.
pub ghost enum RegistrationView {
    Add { config: PowerConfigView },
    Remove,
    Ignore,
    NotFound,
}

impl View for Registration {
    type V = RegistrationView;

    open spec fn view(&self) -> RegistrationView {
        match *self {
            Registration::Add { config } => RegistrationView::Add { config: config@ },
            Registration::Remove => RegistrationView::Remove,
            Registration::Ignore => RegistrationView::Ignore,
            Registration::NotFound => RegistrationView::NotFound,
        }
    }
}

/// Whether `id` equals one of `list`.
pub open spec fn among(list: Seq<ActivityIdentifier>, id: ActivityIdentifier) -> bool {
    exists|k: int| 0 <= k < list.len() && (#[trigger] list[k])@ == id@
}

/// The registry after the event `(id, register)`, and what the caller does.
///
/// An activity that is not among the known ones is not found. A known one
/// is added when it should be registered and is not, removed when it should
/// not be registered and is, and left alone otherwise. An added activity
/// gets the configuration of its window and instance.
pub open spec fn coordinated(
    registered: Seq<ActivityIdentifier>,
    known: Seq<ActivityIdentifier>,
    config: PowerConfigMainView,
    id: ActivityIdentifier,
    register: bool,
) -> (Seq<ActivityIdentifier>, RegistrationView) {
    if !among(known, id) {
        (registered, RegistrationView::NotFound)
    } else if register && !among(registered, id) {
        (
            registered.push(id),
            RegistrationView::Add {
                config: config.get_for_window(id@.window_name, id@.instance as int),
            },
        )
    } else if !register && among(registered, id) {
        (registered.filter(|a: ActivityIdentifier| a@ != id@), RegistrationView::Remove)
    } else {
        (registered, RegistrationView::Ignore)
    }
}

/// Whether `id` equals one of `list`.
fn is_among(list: &Vec<ActivityIdentifier>, id: &ActivityIdentifier) -> (found: bool)
    ensures
        found == among(list@, *id),
{
    let mut k: usize = 0;
    while k < list.len()
        invariant
            k <= list.len(),
            forall|n: int| 0 <= n < k ==> (#[trigger] list@[n])@ != id@,
        decreases list.len() - k,
    {
        if list[k] == *id {
            return true;
        }
        k += 1;
    }
    false
}

/// Applies a registration event to the registry and says what the caller
/// does. `known` lists the activities of this generation.
pub fn coordinate(
    registry: &mut ActivityRegistry,
    known: &Vec<ActivityIdentifier>,
    config: &PowerConfigMain,
    event: &RegistrationEvent,
) -> (action: Registration)
    ensures
        (final(registry).ids(), action@) == coordinated(
            old(registry).ids(),
            known@,
            config@,
            event.id,
            event.register,
        ),
{
    let id = &event.id;
    let register = event.register;
    let ghost before = registry.ids();
    if !is_among(known, id) {
        return Registration::NotFound;
    }
    let registered = registry.contains(id);
    proof {
        lemma_among_holds(before, *id);
    }
    if register && !registered {
        registry.insert(id.clone());
        let config = config.get_for_window(id.window_name(), id.instance());
        Registration::Add { config }
    } else if !register && registered {
        registry.remove(id);
        Registration::Remove
    } else {
        Registration::Ignore
    }
}

/// An activity is among a list exactly when the list's views hold its view.
pub proof fn lemma_among_holds(list: Seq<ActivityIdentifier>, id: ActivityIdentifier)
    ensures
        among(list, id) == crate::registry::views(list).contains(id@),
{
    let all = crate::registry::views(list);
    if among(list, id) {
        let k = choose|k: int| 0 <= k < list.len() && (#[trigger] list[k])@ == id@;
        assert(all[k] == id@);
    }
    if all.contains(id@) {
        let k = choose|k: int| 0 <= k < all.len() && all[k] == id@;
        assert(list[k]@ == id@);
    }
}

/// The same event a second time changes nothing: the registry stays as the
/// first left it, and no action is due.
pub proof fn lemma_event_applies_once(
    registered: Seq<ActivityIdentifier>,
    known: Seq<ActivityIdentifier>,
    config: PowerConfigMainView,
    id: ActivityIdentifier,
    register: bool,
)
    ensures
        ({
            let (after, first) = coordinated(registered, known, config, id, register);
            let (again, second) = coordinated(after, known, config, id, register);
            &&& again == after
            &&& second == RegistrationView::Ignore || second == RegistrationView::NotFound
            &&& among(known, id) ==> among(after, id) == register
        }),
{
    let (after, first) = coordinated(registered, known, config, id, register);
    if among(known, id) {
        if register && !among(registered, id) {
            assert(after[registered.len() as int] == id);
        } else if !register && among(registered, id) {
            let differs = |a: ActivityIdentifier| a@ != id@;
            if among(after, id) {
                let k = choose|k: int| 0 <= k < after.len() && (#[trigger] after[k])@ == id@;
                registered.lemma_filter_pred(differs, k);
            }
        }
    }
}

} // verus!
