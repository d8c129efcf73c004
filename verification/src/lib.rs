//! Shared state that outlives a request.
//!
//! A [`Persisted`] registrar owns one lock-guarded, reference-counted cell and
//! publishes a handle to it, under a fixed key, in the attachment bag of every
//! request it is run on. Any later stage of the pipeline finds the handle again
//! with [`lookup_persistent`], and whoever holds a handle locks the cell to read
//! or change the value in it.
//!
//! The bag keeps at most one store of published cells. Its slot is the store's
//! own type, which nothing outside this crate can name, so only registrars ever
//! write to it.

pub mod bag;
pub mod cell;
pub mod laws;
pub mod registrar;

pub use cell::BoundAny;
pub use cell::Shared;
pub use registrar::lookup_persistent;
pub use registrar::LookupPersistent;
pub use registrar::Persisted;
