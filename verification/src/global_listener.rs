//! What a listener for the keys of the whole desktop reports, and to whom.

use std::collections::HashMap;
use vstd::prelude::*;
use crate::keyboard::{SpecialKey, UnicodeKey};

pub mod windows_backend;

verus! {

/// A key went down or came up.
#[derive(Clone, Debug, PartialEq, Eq)]
pub enum GlobalInputAction {
    KeyUp { value: GlobalInputActionType },
    KeyDown { value: GlobalInputActionType },
}

/// The key of an action: by name, by the character that it types, or where
/// it has neither, by its code.
#[derive(Clone, Debug, PartialEq, Eq)]
pub enum GlobalInputActionType {
    Raw { keycode: u32 },
    UnicodeKey { key: UnicodeKey },
    SpecialKey { key: SpecialKey },
}

/// The subscribers of a listener, each under the id that it was given when
/// it subscribed. No id is given twice.
pub struct ListenerState<S> {
    subscribers: HashMap<u64, S>,
    next_id: u64,
}

impl<S> ListenerState<S> {
    #[verifier::type_invariant]
    spec fn ids_are_spent(&self) -> bool {
        forall|id: u64| #[trigger] self.subscribers@.contains_key(id) ==> id < self.next_id
    }

    /// The subscribers by their ids.
    pub closed spec fn spec_subscribers(&self) -> Map<u64, S> {
        self.subscribers@
    }

    /// The id that the next subscriber gets.
    pub closed spec fn spec_next_id(&self) -> u64 {
        self.next_id
    }

    /// A listener without subscribers.
    pub fn new() -> (state: Self)
        ensures
            state.spec_subscribers() == Map::<u64, S>::empty(),
            state.spec_next_id() == 0,
    {
        ListenerState { subscribers: HashMap::new(), next_id: 0 }
    }

    /// The id that the next subscriber gets.
    pub fn next_id(&self) -> (id: u64)
        ensures
            id == self.spec_next_id(),
    {
        self.next_id
    }

    /// The subscribers by their ids.
    pub fn subscribers(&self) -> (subscribers: &HashMap<u64, S>)
        ensures
            subscribers@ == self.spec_subscribers(),
    {
        &self.subscribers
    }

    /// Takes a subscriber in and gives it an id that no subscriber had
    /// before.
    pub fn add_subscriber(&mut self, subscriber: S) -> (id: u64)
        requires
            old(self).spec_next_id() < u64::MAX,
        ensures
            id == old(self).spec_next_id(),
            !old(self).spec_subscribers().contains_key(id),
            final(self).spec_subscribers() == old(self).spec_subscribers().insert(id, subscriber),
            final(self).spec_next_id() == id + 1,
    {
        broadcast use vstd::std_specs::hash::group_hash_axioms;

        proof {
            use_type_invariant(&*self);
        }
        let id: u64 = self.next_id;
        let mut subscribers = HashMap::new();
        core::mem::swap(&mut subscribers, &mut self.subscribers);
        subscribers.insert(id, subscriber);
        *self = ListenerState { subscribers, next_id: id + 1 };
        id
    }

    /// Lets the subscriber with this id go, if there is one.
    pub fn remove_subscriber(&mut self, id: u64)
        ensures
            final(self).spec_subscribers() == old(self).spec_subscribers().remove(id),
            final(self).spec_next_id() == old(self).spec_next_id(),
    {
        broadcast use vstd::std_specs::hash::group_hash_axioms;

        proof {
            use_type_invariant(&*self);
        }
        let next_id: u64 = self.next_id;
        let mut subscribers = HashMap::new();
        core::mem::swap(&mut subscribers, &mut self.subscribers);
        subscribers.remove(&id);
        *self = ListenerState { subscribers, next_id };
    }
}

} // verus!
