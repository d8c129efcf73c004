//! What holds of hooks and lookups together.

use crate::cell::initial_value;
use crate::cell::BoundAny;
use crate::cell::Shared;
use crate::registrar::lookup_in;
use crate::registrar::store_after_hook;
use crate::registrar::Persisted;
use vstd::prelude::*;

verus! {

/// The store of a request on which the hooks of `hooks` have run, first to
/// last, each given as its registrar's key and cell. A request that no hook has
/// run on has no store.
pub open spec fn store_after_hooks(hooks: Seq<(Seq<char>, Shared<BoundAny>)>) -> Option<
    Map<Seq<char>, Shared<BoundAny>>,
>
    decreases hooks.len(),
{
    if hooks.len() == 0 {
        None
    } else {
        Some(
            store_after_hook(
                store_after_hooks(hooks.drop_last()),
                hooks.last().0,
                hooks.last().1,
            ),
        )
    }
}

/// A hook changes what a lookup finds under its own key, to its own cell, and
/// under no other key.
pub proof fn law_hook_publishes_one_key(
    store: Option<Map<Seq<char>, Shared<BoundAny>>>,
    registrar: Persisted,
    key: Seq<char>,
)
    ensures
        lookup_in(Some(store_after_hook(store, registrar.key(), registrar.cell())), key) == (if key
            == registrar.key() {
            Some(registrar.cell())
        } else {
            lookup_in(store, key)
        }),
{
}

/// On a request on which no registrar bound to `key` has run, a lookup under
/// `key` finds nothing.
pub proof fn law_absent_before_hook(hooks: Seq<(Seq<char>, Shared<BoundAny>)>, key: Seq<char>)
    requires
        forall|i: int| 0 <= i < hooks.len() ==> (#[trigger] hooks[i]).0 != key,
    ensures
        lookup_in(store_after_hooks(hooks), key) is None,
    decreases hooks.len(),
{
    if hooks.len() > 0 {
        law_absent_before_hook(hooks.drop_last(), key);
    }
}

/// On a request on which hooks have run, a lookup under `key` finds the cell of
/// the last hook that was bound to `key`.
pub proof fn law_lookup_finds_last_hook(
    hooks: Seq<(Seq<char>, Shared<BoundAny>)>,
    key: Seq<char>,
    last: int,
)
    requires
        0 <= last < hooks.len(),
        hooks[last].0 == key,
        forall|i: int| last < i < hooks.len() ==> (#[trigger] hooks[i]).0 != key,
    ensures
        lookup_in(store_after_hooks(hooks), key) == Some(hooks[last].1),
    decreases hooks.len(),
{
    if last < hooks.len() - 1 {
        law_lookup_finds_last_hook(hooks.drop_last(), key, last);
    }
}

/// Right after the hook of a registrar that was made with the value `default`,
/// a lookup under the registrar's key finds the registrar's cell, which started
/// out holding `default`.
pub proof fn law_present_after_hook(
    store: Option<Map<Seq<char>, Shared<BoundAny>>>,
    registrar: Persisted,
    default: BoundAny,
)
    requires
        initial_value(*registrar.cell()) == default,
    ensures
        lookup_in(
            Some(store_after_hook(store, registrar.key(), registrar.cell())),
            registrar.key(),
        ) matches Some(cell) && cell == registrar.cell() && initial_value(*cell) == default,
{
}

/// Two requests, each after the hook of a registrar bound to the same key:
/// lookups under that key find the same cell on both exactly when the two
/// registrars hold the same cell, whatever the requests' stores held before.
pub proof fn law_requests_share_by_cell(
    first_store: Option<Map<Seq<char>, Shared<BoundAny>>>,
    second_store: Option<Map<Seq<char>, Shared<BoundAny>>>,
    first: Persisted,
    second: Persisted,
)
    requires
        first.key() == second.key(),
    ensures
        lookup_in(Some(store_after_hook(first_store, first.key(), first.cell())), first.key())
            == lookup_in(
            Some(store_after_hook(second_store, second.key(), second.cell())),
            second.key(),
        ) <==> first.cell() == second.cell(),
{
}

/// Running a registrar's hook a second time on a request leaves the store as
/// the first run left it: one entry for the key, with the registrar's cell.
pub proof fn law_hook_is_idempotent(
    store: Option<Map<Seq<char>, Shared<BoundAny>>>,
    registrar: Persisted,
)
    ensures
        store_after_hook(
            Some(store_after_hook(store, registrar.key(), registrar.cell())),
            registrar.key(),
            registrar.cell(),
        ) == store_after_hook(store, registrar.key(), registrar.cell()),
{
    let once = store_after_hook(store, registrar.key(), registrar.cell());
    let twice = store_after_hook(Some(once), registrar.key(), registrar.cell());
    assert(twice =~= once);
}

} // verus!
