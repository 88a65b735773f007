//! Runtime core of an object-relational persistence layer.
//!
//! The crate bridges native values and SQL column values, states a
//! backend-agnostic contract for executing statements and iterating
//! result rows, and implements lazily-loaded, cached object
//! relationships on top of that contract: a single-valued reference
//! ([`fkey::ForeignKey`]) and a many-to-many collection
//! ([`many::Many`]) backed by a join table.
//!
//! Schema migration is deliberately outside this crate: the connection
//! contract is the execution surface migrations run statements
//! against, but the migration interfaces consume abstract-schema types
//! that belong to the migration subsystem itself.

use vstd::prelude::*;

pub mod connmethods;
pub mod dataobj;
pub mod fkey;
pub mod many;
pub mod oncecell;
pub mod query;
pub mod sqlval;

verus! {

/// The recoverable failures of this crate.
///
/// Failures reported by a backend driver are passed through unchanged
/// in [`Error::Backend`]; nothing here aborts the process.
#[derive(Debug)]
pub enum Error {
    /// An accessor was used before the value was resolved or loaded.
    ValueNotLoaded,
    /// A relationship mutation was attempted with a member whose
    /// primary key looks unassigned.
    ValueNotSaved,
    /// A load or mutation was attempted on a many-to-many relationship
    /// that was never bound to its owner.
    NotInitialized,
    /// A cell was read with a column type the stored value is not
    /// compatible with: the declared type and the offending value.
    CannotConvertSqlVal(sqlval::SqlType, sqlval::SqlVal),
    /// A row cell index was out of bounds.
    BoundsError(String),
    /// No row matched a primary-key lookup.
    NoSuchObject,
    /// A failure reported by the backend driver, passed through.
    Backend(String),
}

/// The result type used throughout this crate.
pub type Result<T> = core::result::Result<T, Error>;

} // verus!
