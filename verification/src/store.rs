//! The store of resources that all requests share. The store itself is plain
//! data; whoever shares it between requests guards it with a lock and wakes the
//! waiters after every change.

use vstd::prelude::*;
use vstd::string::*;
use crate::keyed::{
    distinct_keys, keyed_map, lemma_keyed_dom, lemma_keyed_len, lemma_keyed_push,
    lemma_keyed_remove, lemma_keyed_update, lemma_keyed_value, lemma_keyed_witness,
};
use crate::resource::{Resource, ResourceView};
use crate::tai::{next_update, strictly_increasing_update, Tai};
use crate::text::str_eq;
use crate::types::ResourceType;

verus! {

/// The id of a resource, as the key by which the store finds it.
pub open spec fn resource_id() -> spec_fn(Resource) -> Seq<char> {
    |r: Resource| r.id@
}

/// The view of a resource.
pub open spec fn resource_view() -> spec_fn(Resource) -> ResourceView {
    |r: Resource| r@
}

/// What a change leaves of a resource: its id and its type stay, its token
/// moves on, and all else is as the change made it.
pub open spec fn modified_resource(before: ResourceView, after: ResourceView, now: Tai) -> ResourceView {
    ResourceView {
        id: before.id,
        type_: before.type_,
        version: after.version,
        downgrade_version: after.downgrade_version,
        updated: next_update(before.updated, now),
        data: after.data,
        staged: after.staged,
    }
}

/// The resources of a node, each under its id, with the flag that says that
/// the node is shutting down and the longest time, in seconds, that a request
/// waits for an immediate activation.
#[derive(Debug)]
pub struct ResourceStore {
    resources: Vec<Resource>,
    shutdown: bool,
    immediate_activation_max: u64,
}

impl ResourceStore {
    #[verifier::type_invariant]
    spec fn well_formed(self) -> bool {
        distinct_keys(self.resources@, resource_id())
    }

    /// The resources by id.
    pub closed spec fn resources(self) -> Map<Seq<char>, ResourceView> {
        keyed_map(self.resources@, resource_id(), resource_view())
    }

    /// Whether the store is shutting down.
    pub closed spec fn shutdown(self) -> bool {
        self.shutdown
    }

    /// The longest wait for an immediate activation, in seconds.
    pub closed spec fn max_wait(self) -> u64 {
        self.immediate_activation_max
    }

    /// The store holds a resource with this id and this type.
    pub open spec fn has(self, id: Seq<char>, type_: ResourceType) -> bool {
        self.resources().dom().contains(id) && self.resources()[id].type_ == type_
    }

    /// A store holds finitely many resources.
    pub proof fn lemma_finite(self)
        ensures
            self.resources().dom().finite(),
    {
        lemma_keyed_dom(self.resources@, resource_id(), resource_view());
    }

    /// A resource is stored under its own id.
    pub proof fn lemma_stored_under_id(self, id: Seq<char>)
        requires
            self.resources().dom().contains(id),
        ensures
            self.resources()[id].id == id,
    {
        lemma_keyed_witness(self.resources@, resource_id(), resource_view(), id);
    }

    /// An empty store that is not shutting down.
    pub fn new(immediate_activation_max: u64) -> (r: ResourceStore)
        ensures
            r.resources() == Map::<Seq<char>, ResourceView>::empty(),
            !r.shutdown(),
            r.max_wait() == immediate_activation_max,
    {
        ResourceStore { resources: Vec::new(), shutdown: false, immediate_activation_max }
    }

    /// The position of the resource with this id.
    fn position(&self, id: &str) -> (r: Option<usize>)
        ensures
            match r {
                Some(i) => i < self.resources@.len() && self.resources@[i as int].id@ == id@,
                None => forall|i: int|
                    0 <= i < self.resources@.len() ==> self.resources@[i].id@ != id@,
            },
    {
        let mut i: usize = 0;
        while i < self.resources.len()
            invariant
                i <= self.resources@.len(),
                forall|j: int| 0 <= j < i ==> self.resources@[j].id@ != id@,
            decreases self.resources@.len() - i,
        {
            if str_eq(self.resources[i].id.as_str(), id) {
                return Some(i);
            }
            i = i + 1;
        }
        None
    }

    /// The number of resources.
    pub fn len(&self) -> (r: usize)
        ensures
            self.resources().dom().finite(),
            r == self.resources().dom().len(),
    {
        proof {
            use_type_invariant(self);
            lemma_keyed_len(self.resources@, resource_id(), resource_view());
        }
        self.resources.len()
    }

    /// Whether the store is shutting down.
    pub fn is_shutting_down(&self) -> (r: bool)
        ensures
            r == self.shutdown(),
    {
        self.shutdown
    }

    /// The longest wait for an immediate activation, in seconds.
    pub fn immediate_activation_max(&self) -> (r: u64)
        ensures
            r == self.max_wait(),
    {
        self.immediate_activation_max
    }

    /// Marks the store as shutting down. Every wait on it ends at its next look.
    pub fn shut_down(&mut self)
        ensures
            final(self).shutdown(),
            final(self).resources() == old(self).resources(),
            final(self).max_wait() == old(self).max_wait(),
    {
        proof {
            use_type_invariant(&*self);
        }
        self.shutdown = true;
    }

    /// The resource with this id, if the store holds one and it has this type.
    pub fn find(&self, id: &str, type_: ResourceType) -> (r: Option<&Resource>)
        ensures
            r is Some == self.has(id@, type_),
            r is Some ==> r->0@ == self.resources()[id@],
    {
        proof {
            use_type_invariant(self);
            lemma_keyed_dom(self.resources@, resource_id(), resource_view());
        }
        match self.position(id) {
            Some(i) => {
                proof {
                    lemma_keyed_value(self.resources@, resource_id(), resource_view(), i as int);
                }
                let resource = &self.resources[i];
                if resource.type_ == type_ {
                    Some(resource)
                } else {
                    None
                }
            },
            None => None,
        }
    }

    /// Adds a resource. A resource whose id the store already holds is not
    /// added, and the store stays as it was.
    pub fn insert(&mut self, resource: Resource) -> (r: bool)
        ensures
            r == !old(self).resources().dom().contains(resource.id@),
            final(self).resources() == if r {
                old(self).resources().insert(resource.id@, resource@)
            } else {
                old(self).resources()
            },
            final(self).shutdown() == old(self).shutdown(),
            final(self).max_wait() == old(self).max_wait(),
    {
        proof {
            use_type_invariant(&*self);
            lemma_keyed_dom(self.resources@, resource_id(), resource_view());
        }
        match self.position(resource.id.as_str()) {
            Some(_) => false,
            None => {
                let mut resources = Vec::new();
                std::mem::swap(&mut resources, &mut self.resources);
                proof {
                    lemma_keyed_push(resources@, resource_id(), resource_view(), resource);
                }
                resources.push(resource);
                self.resources = resources;
                true
            },
        }
    }

    /// Takes the resource with this id and this type out of the store.
    pub fn erase(&mut self, id: &str, type_: ResourceType) -> (r: Option<Resource>)
        ensures
            r is Some == old(self).has(id@, type_),
            r is Some ==> r->0@ == old(self).resources()[id@],
            final(self).resources() == if r is Some {
                old(self).resources().remove(id@)
            } else {
                old(self).resources()
            },
            final(self).shutdown() == old(self).shutdown(),
            final(self).max_wait() == old(self).max_wait(),
    {
        proof {
            use_type_invariant(&*self);
            lemma_keyed_dom(self.resources@, resource_id(), resource_view());
        }
        match self.position(id) {
            Some(i) => {
                proof {
                    lemma_keyed_value(self.resources@, resource_id(), resource_view(), i as int);
                }
                if self.resources[i].type_ != type_ {
                    return None;
                }
                let mut resources = Vec::new();
                std::mem::swap(&mut resources, &mut self.resources);
                proof {
                    lemma_keyed_remove(resources@, resource_id(), resource_view(), i as int);
                }
                let resource = resources.remove(i);
                self.resources = resources;
                Some(resource)
            },
            None => None,
        }
    }

    /// Changes the resource with this id and this type by `mutator` and moves
    /// its token on past `now`. The id and the type of the resource stay,
    /// whatever `mutator` does to them. Without such a resource the store stays
    /// as it was and the result is `false`.
    pub fn modify<F: FnOnce(Resource) -> Resource>(
        &mut self,
        id: &str,
        type_: ResourceType,
        now: &Tai,
        mutator: F,
    ) -> (r: bool)
        requires
            forall|resource: Resource| call_requires(mutator, (resource,)),
        ensures
            r == old(self).has(id@, type_),
            !r ==> final(self).resources() == old(self).resources(),
            r ==> exists|before: Resource, after: Resource|
                before@ == old(self).resources()[id@] && call_ensures(mutator, (before,), after)
                    && final(self).resources() == old(self).resources().insert(
                    id@,
                    modified_resource(before@, after@, *now),
                ),
            final(self).shutdown() == old(self).shutdown(),
            final(self).max_wait() == old(self).max_wait(),
    {
        proof {
            use_type_invariant(&*self);
            lemma_keyed_dom(self.resources@, resource_id(), resource_view());
        }
        let i = match self.position(id) {
            Some(i) => i,
            None => {
                return false;
            },
        };
        proof {
            lemma_keyed_value(self.resources@, resource_id(), resource_view(), i as int);
        }
        if self.resources[i].type_ != type_ {
            return false;
        }
        let mut resources = Vec::new();
        std::mem::swap(&mut resources, &mut self.resources);
        let ghost stored = resources@;
        let before = resources.remove(i);
        let kept_id = before.id.clone();
        let updated = strictly_increasing_update(&before.updated, now);
        let mut changed = mutator(before);
        let ghost after = changed;
        changed.id = kept_id;
        changed.type_ = type_;
        changed.updated = updated;
        proof {
            assert(stored.remove(i as int).insert(i as int, changed) =~= stored.update(
                i as int,
                changed,
            ));
            lemma_keyed_update(stored, resource_id(), resource_view(), i as int, changed);
            assert(changed@ == modified_resource(before@, after@, *now));
        }
        resources.insert(i, changed);
        self.resources = resources;
        true
    }
}

} // verus!
