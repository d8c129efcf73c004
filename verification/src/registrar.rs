//! The registrar, its hook, and the lookup that later stages use.

use crate::bag::attach_store;
use crate::bag::attached_store;
use crate::bag::other_attachments;
use crate::bag::store_of;
use crate::bag::store_of_mut;
use crate::bag::PersistentStore;
use crate::cell::clone_handle;
use crate::cell::initial_value;
use crate::cell::new_cell;
use crate::cell::BoundAny;
use crate::cell::Shared;
use conduit::Extensions;
use std::convert::Infallible;
use vstd::prelude::*;

verus! {

/// The store of a request as a registrar's hook leaves it: the store it found,
/// or an empty one if it found none, with `cell` published under `key`.
pub open spec fn store_after_hook(
    store: Option<Map<Seq<char>, Shared<BoundAny>>>,
    key: Seq<char>,
    cell: Shared<BoundAny>,
) -> Map<Seq<char>, Shared<BoundAny>> {
    let found = match store {
        Some(cells) => cells,
        None => Map::empty(),
    };
    found.insert(key, cell)
}

/// What a lookup under `key` finds on a request with this store: the cell
/// published under `key`, or nothing where there is no store or no such key.
pub open spec fn lookup_in(store: Option<Map<Seq<char>, Shared<BoundAny>>>, key: Seq<char>)
    -> Option<Shared<BoundAny>> {
    match store {
        Some(cells) => if cells.contains_key(key) {
            Some(cells[key])
        } else {
            None
        },
        None => None,
    }
}

/// A registrar: one key and one shared cell, published on every request that
/// the registrar's hook runs on.
pub struct Persisted {
    key: String,
    data: Shared<BoundAny>,
}

impl Persisted {
    /// The key under which the cell is published.
    pub closed spec fn key(&self) -> Seq<char> {
        self.key@
    }

    /// The cell that the registrar publishes.
    pub closed spec fn cell(&self) -> Shared<BoundAny> {
        self.data
    }

    /// A registrar for `key`, with a new cell that starts out holding `default`.
    pub fn new(key: String, default: BoundAny) -> (registrar: Persisted)
        ensures
            registrar.key() == key@,
            initial_value(*registrar.cell()) == default,
    {
        Persisted { key: key, data: new_cell(default) }
    }

    /// The hook that runs before the handlers of a request: publishes the cell
    /// under the key in the request's store, creating the store if the request
    /// has none yet. It cannot fail, and it leaves the registrar as it was.
    pub fn before(&self, bag: &mut Extensions) -> (outcome: Result<(), Infallible>)
        ensures
            outcome is Ok,
            attached_store(*final(bag)) == Some(
                store_after_hook(attached_store(*old(bag)), self.key(), self.cell()),
            ),
            other_attachments(*final(bag)) == other_attachments(*old(bag)),
    {
        match store_of_mut(bag) {
            Some(store) => {
                store.insert(self.key.clone(), clone_handle(&self.data));
            },
            None => {
                let mut store = PersistentStore::new();
                store.insert(self.key.clone(), clone_handle(&self.data));
                attach_store(bag, store);
            },
        }
        Ok(())
    }
}

/// A new handle to the cell published under `key` on this request, or `None`
/// where the request has no store or the store has no such key. The bag is
/// left as it was.
pub fn lookup_persistent(bag: &mut Extensions, key: String) -> (found: Option<Shared<BoundAny>>)
    ensures
        found == lookup_in(attached_store(*old(bag)), key@),
        *final(bag) == *old(bag),
{
    match store_of(bag) {
        Some(store) => store.get(key.as_str()),
        None => None,
    }
}

/// [`lookup_persistent`] as a method of whatever carries a request's store.
pub trait LookupPersistent: Sized {
    /// The store that the lookup reads.
    spec fn store(self) -> Option<Map<Seq<char>, Shared<BoundAny>>>;

    /// A new handle to the cell published under `key`, if there is one.
    fn lookup_persistent(self, key: String) -> (found: Option<Shared<BoundAny>>)
        ensures
            found == lookup_in(self.store(), key@),
    ;
}

impl<'a> LookupPersistent for &'a mut Extensions {
    open spec fn store(self) -> Option<Map<Seq<char>, Shared<BoundAny>>> {
        attached_store(*self)
    }

    fn lookup_persistent(self, key: String) -> (found: Option<Shared<BoundAny>>)
        ensures
            *final(self) == *old(self),
    {
        lookup_persistent(self, key)
    }
}

} // verus!
