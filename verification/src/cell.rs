//! The shared cell: a value behind a reader/writer lock behind a reference count.

use std::any::Any;
use std::sync::Arc;
use std::sync::RwLock;
use vstd::prelude::*;

verus! {

/// A value of any thread-safe type, boxed with its type erased.
///
/// The field is the standard boxed `Any`: whoever reads the value out of a cell
/// downcasts it to the type that was put in. Verus does not take a trait object
/// with marker traits, so in contracts this is an opaque value.
#[verifier::external_body]
pub struct BoundAny(pub Box<dyn Any + Send + Sync>);

/// A handle to a shared cell. Cloning the handle shares the cell; the value is
/// reached by taking the lock for reading or for writing.
///
/// In contracts a handle stands for the cell it points to, so two handles that
/// are equal there share one cell.
pub type Shared<T> = Arc<RwLock<T>>;

/// `std::sync::RwLock`, opaque to Verus.
#[verifier::external_type_specification]
#[verifier::external_body]
#[verifier::reject_recursive_types(T)]
pub struct ExRwLock<T: ?Sized>(RwLock<T>);

/// The value that a lock was created around. What the lock holds later is not
/// a function of the lock, since any holder of a handle may write to it.
pub uninterp spec fn initial_value(lock: RwLock<BoundAny>) -> BoundAny;

/// `RwLock::new`: a fresh, unlocked lock around `value`. The contract records
/// only which value the lock was created around.
#[verifier::external_body]
pub(crate) fn new_lock(value: BoundAny) -> (lock: RwLock<BoundAny>)
    ensures
        initial_value(lock) == value,
{
    RwLock::new(value)
}

/// `Arc::clone`: one more handle to the same cell. The contract claims that the
/// new handle points to the cell that `cell` points to.
#[verifier::external_body]
pub(crate) fn clone_handle(cell: &Shared<BoundAny>) -> (handle: Shared<BoundAny>)
    ensures
        handle == *cell,
{
    Arc::clone(cell)
}

/// A new cell holding `value`, with this handle as its only one.
pub(crate) fn new_cell(value: BoundAny) -> (cell: Shared<BoundAny>)
    ensures
        initial_value(*cell) == value,
{
    Arc::new(new_lock(value))
}

} // verus!
