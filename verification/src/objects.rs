//! The objects that a service serves, keyed by uuid.

use vstd::prelude::*;
use std::collections::HashMap;
use crate::error::Error;

verus! {

broadcast use vstd::std_specs::hash::group_hash_axioms;

/// The objects that a service serves, each under the uuid of its type.
pub struct Objects<O> {
    table: HashMap<u128, O>,
}

impl<O> View for Objects<O> {
    type V = Map<u128, O>;

    closed spec fn view(&self) -> Map<u128, O> {
        self.table@
    }
}

/// The table once `object` has been offered under `uuid`: it is added when
/// the uuid is free, and the table is left as it was when it is taken.
pub open spec fn after_add<O>(t: Map<u128, O>, uuid: u128, object: O) -> Map<u128, O> {
    if t.contains_key(uuid) {
        t
    } else {
        t.insert(uuid, object)
    }
}

impl<O> Objects<O> {
    /// A service that serves nothing yet.
    pub fn new() -> (r: Self)
        ensures
            r@ == Map::<u128, O>::empty(),
    {
        Objects { table: HashMap::new() }
    }

    /// Starts serving `object` under `uuid`; refused, with nothing changed,
    /// when an object is already served under that uuid.
    pub fn add<E>(&mut self, uuid: u128, object: O) -> (r: Result<(), Error<E>>)
        ensures
            final(self)@ == after_add(old(self)@, uuid, object),
            old(self)@.contains_key(uuid) ==> r matches Err(Error::UuidAlreadyInUse),
            !old(self)@.contains_key(uuid) ==> r is Ok,
            old(self)@.contains_key(uuid) ==> final(self)@ == old(self)@,
            !old(self)@.contains_key(uuid) ==> final(self)@ == old(self)@.insert(uuid, object),
            forall|k: u128| k != uuid ==> final(self)@.contains_key(k) == old(self)@.contains_key(k),
            forall|k: u128| k != uuid && old(self)@.contains_key(k) ==> final(self)@[k] == old(self)@[k],
    {
        if self.table.contains_key(&uuid) {
            return Err(Error::UuidAlreadyInUse);
        }
        self.table.insert(uuid, object);
        Ok(())
    }

    /// The object served under `uuid`, or the error that answers a call to
    /// an object not served.
    pub fn find<E>(&self, uuid: u128) -> (r: Result<&O, Error<E>>)
        ensures
            self@.contains_key(uuid) ==> (r matches Ok(o) && *o == self@[uuid]),
            !self@.contains_key(uuid) ==> (r matches Err(Error::UnknownObject(u)) && u == uuid),
    {
        match self.table.get(&uuid) {
            Some(o) => Ok(o),
            None => Err(Error::UnknownObject(uuid)),
        }
    }
}

/// Adding an object never disturbs the others: every object served under
/// another uuid stays served, unchanged; the uuid offered ends up served,
/// by the new object when it was free and by the old one otherwise.
pub proof fn lemma_add_keeps_others<O>(t: Map<u128, O>, uuid: u128, object: O)
    ensures
        forall|k: u128| k != uuid ==> after_add(t, uuid, object).contains_key(k) == t.contains_key(k),
        forall|k: u128| k != uuid && t.contains_key(k) ==> after_add(t, uuid, object)[k] == t[k],
        after_add(t, uuid, object).contains_key(uuid),
        !t.contains_key(uuid) ==> after_add(t, uuid, object)[uuid] == object,
        t.contains_key(uuid) ==> after_add(t, uuid, object)[uuid] == t[uuid],
        after_add(t, uuid, object).dom() == t.dom().insert(uuid),
{
    assert(after_add(t, uuid, object).dom() =~= t.dom().insert(uuid));
}

/// An object once added is found under its uuid, and a second object
/// offered under the same uuid is refused: the first one stays.
pub proof fn lemma_first_object_stays<O>(t: Map<u128, O>, uuid: u128, first: O, second: O)
    requires
        !t.contains_key(uuid),
    ensures
        after_add(t, uuid, first).contains_key(uuid),
        after_add(t, uuid, first)[uuid] == first,
        after_add(after_add(t, uuid, first), uuid, second) == after_add(t, uuid, first),
{
}

} // verus!
