//! The single-assignment cache: a "compute once, read many" cell.
//!
//! This is the blocking variant of the cell: the caller is never
//! suspended, and a single caller at a time drives the one-shot
//! computation. A failed computation leaves the cell empty, so a later
//! call may retry; failure is never cached.

use vstd::prelude::*;

use crate::Error;

verus! {

/// A write-once cell: empty until its first successful assignment,
/// then populated forever with that first value.
#[derive(Debug)]
pub struct ButaneOnceCell<T> {
    value: Option<T>,
}

impl<T> View for ButaneOnceCell<T> {
    type V = Option<T>;

    closed spec fn view(&self) -> Option<T> {
        self.value
    }
}

impl<T> ButaneOnceCell<T> {
    /// Makes an empty cell.
    pub fn new() -> (r: Self)
        ensures
            r@ is None,
    {
        ButaneOnceCell { value: None }
    }

    /// Makes a cell already populated with the given value.
    pub fn from_value(value: T) -> (r: Self)
        ensures
            r@ == Some(value),
    {
        ButaneOnceCell { value: Some(value) }
    }

    /// Returns the cached value, or nothing when the cell is still
    /// empty.
    pub fn get(&self) -> (r: Option<&T>)
        ensures
            match r {
                Some(v) => self@ == Some(*v),
                None => self@ is None,
            },
    {
        match &self.value {
            Some(v) => Some(v),
            None => None,
        }
    }

    /// Populates an empty cell; a populated cell is left untouched and
    /// the offered value is handed back.
    pub fn set(&mut self, value: T) -> (r: core::result::Result<(), T>)
        ensures
            match r {
                Ok(_) => old(self)@ is None && final(self)@ == Some(value),
                Err(v) => old(self)@ is Some && final(self)@ == old(self)@ && v == value,
            },
    {
        match &self.value {
            Some(_) => Err(value),
            None => {
                self.value = Some(value);
                Ok(())
            },
        }
    }

    /// The compute-once path: returns the cached value if the cell is
    /// populated, with no call of `f`; otherwise invokes `f` exactly
    /// once, caches a successful result and returns it, and on failure
    /// leaves the cell empty so a later call may retry.
    pub fn get_or_try_init<F: FnOnce() -> core::result::Result<T, Error>>(&mut self, f: F) -> (r:
        core::result::Result<&T, Error>)
        requires
            old(self)@ is None ==> call_requires(f, ()),
        ensures
            match r {
                Ok(v) => final(self)@ == Some(*v) && match old(self)@ {
                    Some(cached) => *v == cached,
                    None => call_ensures(f, (), Ok(*v)),
                },
                Err(e) => old(self)@ is None && final(self)@ is None && call_ensures(
                    f,
                    (),
                    Err(e),
                ),
            },
    {
        if self.value.is_none() {
            match f() {
                Ok(v) => {
                    self.value = Some(v);
                },
                Err(e) => {
                    return Err(e);
                },
            }
        }
        match &self.value {
            Some(v) => Ok(v),
            None => unreached(),
        }
    }
}

} // verus!
