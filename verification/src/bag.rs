//! The attachment bag of a request, and the store of published cells in it.

use crate::cell::clone_handle;
use crate::cell::BoundAny;
use crate::cell::Shared;
use conduit::Extensions;
use vstd::hash_map::StringHashMap;
use vstd::multiset::Multiset;
use vstd::prelude::*;

verus! {

/// `conduit::Extensions`, the type-keyed attachment bag of a request, opaque to
/// Verus.
#[verifier::external_type_specification]
#[verifier::external_body]
pub struct ExExtensions(Extensions);

/// The store attached to a bag, as a map from key to cell; `None` while the bag
/// has no store.
pub uninterp spec fn attached_store(bag: Extensions) -> Option<Map<Seq<char>, Shared<BoundAny>>>;

/// Everything attached to a bag under a type other than the store's.
pub uninterp spec fn other_attachments(bag: Extensions) -> Multiset<BoundAny>;

/// The cells published on one request, by key.
pub(crate) struct PersistentStore {
    cells: StringHashMap<Shared<BoundAny>>,
}

impl View for PersistentStore {
    type V = Map<Seq<char>, Shared<BoundAny>>;

    closed spec fn view(&self) -> Self::V {
        self.cells@
    }
}

impl PersistentStore {
    /// A store with no cell in it.
    pub(crate) fn new() -> (store: PersistentStore)
        ensures
            store@ == Map::<Seq<char>, Shared<BoundAny>>::empty(),
    {
        PersistentStore { cells: StringHashMap::new() }
    }

    /// Publishes `cell` under `key`, in place of whatever was published there.
    pub(crate) fn insert(&mut self, key: String, cell: Shared<BoundAny>)
        ensures
            final(self)@ == old(self)@.insert(key@, cell),
    {
        self.cells.insert(key, cell);
    }

    /// A new handle to the cell published under `key`, if there is one.
    pub(crate) fn get(&self, key: &str) -> (found: Option<Shared<BoundAny>>)
        ensures
            found == (if self@.contains_key(key@) {
                Some(self@[key@])
            } else {
                None
            }),
    {
        match self.cells.get(key) {
            Some(cell) => Some(clone_handle(cell)),
            None => None,
        }
    }
}

/// `Extensions::get`, asked for the store: the attached store, if the bag has
/// one.
#[verifier::external_body]
pub(crate) fn store_of(bag: &Extensions) -> (found: Option<&PersistentStore>)
    ensures
        match found {
            Some(store) => attached_store(*bag) == Some(store@),
            None => attached_store(*bag) is None,
        },
{
    bag.get::<PersistentStore>()
}

/// `Extensions::get_mut`, asked for the store. Where the bag has one, the
/// result borrows it in place: the bag ends up with the store as the borrower
/// leaves it and with every other attachment untouched. Where it has none, the
/// bag is left as it was.
#[verifier::external_body]
pub(crate) fn store_of_mut(bag: &mut Extensions) -> (found: Option<&mut PersistentStore>)
    ensures
        match found {
            Some(store) => {
                &&& attached_store(*old(bag)) == Some(store@)
                &&& attached_store(*final(bag)) == Some(final(store)@)
                &&& other_attachments(*final(bag)) == other_attachments(*old(bag))
            },
            None => attached_store(*old(bag)) is None && *final(bag) == *old(bag),
        },
{
    bag.get_mut::<PersistentStore>()
}

/// `Extensions::insert`, given a store: the bag then holds that store, in place
/// of any it held before, and every other attachment is untouched.
#[verifier::external_body]
pub(crate) fn attach_store(bag: &mut Extensions, store: PersistentStore)
    ensures
        attached_store(*final(bag)) == Some(store@),
        other_attachments(*final(bag)) == other_attachments(*old(bag)),
{
    bag.insert(store);
}

} // verus!
