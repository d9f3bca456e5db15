//! The identity of one activity: which module owns it, of what kind it is,
//! on which window it lives and which instance of that window it is.

use crate::text::{index_of_text, parse_index};
use vstd::prelude::*;
use vstd::std_specs::cmp::PartialEqSpecImpl;

verus! {

/// One place on a window: the window's name and an instance index.
pub ghost struct Slot {
    pub window: Seq<char>,
    pub index: nat,
}

/// What an [`ActivityIdentifier`] holds, as mathematical values.
pub ghost struct ActivityIdentifierView {
    pub module: Seq<char>,
    pub activity: Seq<char>,
    pub window_name: Seq<char>,
    pub instance: nat,
}

/// Names one activity. An identifier never changes after it is made: the
/// instance index in particular is fixed at creation.
#[derive(Debug, Eq)]
pub struct ActivityIdentifier {
    module: String,
    activity: String,
    window_name: String,
    instance: usize,
}

impl View for ActivityIdentifier {
    type V = ActivityIdentifierView;

    closed spec fn view(&self) -> ActivityIdentifierView {
        ActivityIdentifierView {
            module: self.module@,
            activity: self.activity@,
            window_name: self.window_name@,
            instance: self.instance as nat,
        }
    }
}

impl PartialEqSpecImpl for ActivityIdentifier {
    open spec fn obeys_eq_spec() -> bool {
        true
    }

    open spec fn eq_spec(&self, other: &ActivityIdentifier) -> bool {
        self@ == other@
    }
}

impl PartialEq for ActivityIdentifier {
    fn eq(&self, other: &ActivityIdentifier) -> (same: bool) {
        self.module == other.module && self.activity == other.activity && self.window_name
            == other.window_name && self.instance == other.instance
    }
}

impl Clone for ActivityIdentifier {
    fn clone(&self) -> (copy: ActivityIdentifier)
        ensures
            copy == *self,
    {
        ActivityIdentifier {
            module: self.module.clone(),
            activity: self.activity.clone(),
            window_name: self.window_name.clone(),
            instance: self.instance,
        }
    }
}

impl ActivityIdentifier {
    /// The slot that this activity occupies.
    pub open spec fn slot(&self) -> Slot {
        Slot { window: self@.window_name, index: self@.instance }
    }

    /// An identifier for instance `instance` of `activity` on `window_name`.
    pub fn new(module: &str, activity: &str, window_name: &str, instance: usize) -> (id:
        ActivityIdentifier)
        ensures
            id@ == (ActivityIdentifierView {
                module: module@,
                activity: activity@,
                window_name: window_name@,
                instance: instance as nat,
            }),
    {
        ActivityIdentifier {
            module: module.to_owned(),
            activity: activity.to_owned(),
            window_name: window_name.to_owned(),
            instance,
        }
    }

    /// What [`ActivityIdentifier::from_metadata`] makes of raw metadata: an
    /// absent window name reads as the empty name, and the instance text must
    /// be present and denote an index.
    pub open spec fn of_metadata(
        module: Seq<char>,
        activity: Seq<char>,
        window_name: Option<Seq<char>>,
        instance: Option<Seq<char>>,
    ) -> Option<ActivityIdentifierView> {
        match instance {
            Some(text) => match index_of_text(text) {
                Some(index) => Some(
                    ActivityIdentifierView {
                        module,
                        activity,
                        window_name: match window_name {
                            Some(name) => name,
                            None => Seq::empty(),
                        },
                        instance: index as nat,
                    },
                ),
                None => None,
            },
            None => None,
        }
    }

    /// Builds an identifier from the metadata attached to an activity when it
    /// was created.
    pub fn from_metadata(
        module: &str,
        activity: &str,
        window_name: Option<&str>,
        instance: Option<&str>,
    ) -> (made: Option<ActivityIdentifier>)
        ensures
            (match made {
                Some(id) => Some(id@),
                None => None,
            }) == Self::of_metadata(
                module@,
                activity@,
                match window_name {
                    Some(name) => Some(name@),
                    None => None,
                },
                match instance {
                    Some(text) => Some(text@),
                    None => None,
                },
            ),
    {
        let text = match instance {
            Some(text) => text,
            None => { return None; },
        };
        let index = match parse_index(text) {
            Some(index) => index,
            None => { return None; },
        };
        let name = match window_name {
            Some(name) => name,
            None => "",
        };
        proof {
            reveal_strlit("");
        }
        assert(""@ =~= Seq::<char>::empty());
        Some(ActivityIdentifier::new(module, activity, name, index))
    }

    /// The module that owns the activity.
    pub fn module(&self) -> (name: &str)
        ensures
            name@ == self@.module,
    {
        self.module.as_str()
    }

    /// The kind of the activity.
    pub fn activity(&self) -> (name: &str)
        ensures
            name@ == self@.activity,
    {
        self.activity.as_str()
    }

    /// The window on which the activity lives.
    pub fn window_name(&self) -> (name: &str)
        ensures
            name@ == self@.window_name,
    {
        self.window_name.as_str()
    }

    /// Which instance of its window the activity is.
    pub fn instance(&self) -> (index: usize)
        ensures
            index == self@.instance,
    {
        self.instance
    }
}

/// The instance index under which an activity's configuration is found.
pub fn get_conf_idx(id: &ActivityIdentifier) -> (index: usize)
    ensures
        index == id@.instance,
{
    id.instance()
}

} // verus!
