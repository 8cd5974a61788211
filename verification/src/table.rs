//! Table handles.
//!
//! A table handle is made from the native table that a create or open
//! operation resolved with. From then on it lives by itself: closing or
//! dropping the connection it came from does not touch it.

use std::sync::Arc;
use vstd::prelude::*;
use crate::connection::closed;
use crate::error::{BridgeError, closed_table_error};
use crate::share::share;

verus! {

/// A handle on a table.
#[derive(Debug)]
pub struct Table<T> {
    inner: Option<Arc<T>>,
}

impl<T> View for Table<T> {
    type V = Option<T>;

    /// The native table behind an open handle; `None` once closed.
    closed spec fn view(&self) -> Option<T> {
        match self.inner {
            Some(table) => Some(*table),
            None => None,
        }
    }
}

impl<T> Clone for Table<T> {
    /// A second handle on the same native table.
    fn clone(&self) -> (other: Self)
        ensures
            other@ == self@,
    {
        match &self.inner {
            Some(inner) => Table { inner: Some(share(inner)) },
            None => Table { inner: None },
        }
    }
}

impl<T> Table<T> {
    /// An open handle on `inner`.
    pub fn new(inner: T) -> (handle: Self)
        ensures
            handle@ == Some(inner),
    {
        Table { inner: Some(Arc::new(inner)) }
    }

    /// Whether the handle is open.
    pub fn is_open(&self) -> (open: bool)
        ensures
            open == (self@ is Some),
    {
        self.inner.is_some()
    }

    /// Closes the handle. Closing a closed handle changes nothing.
    pub fn close(&mut self)
        ensures
            final(self)@ == closed(old(self)@),
    {
        self.inner.take();
    }

    /// The native table of an open handle, or the error of a closed one.
    pub fn get_inner(&self) -> (res: Result<&Arc<T>, BridgeError>)
        ensures
            match self@ {
                Some(table) => res matches Ok(inner) && **inner == table,
                None => res matches Err(e) && e@ == closed_table_error(),
            },
    {
        match &self.inner {
            Some(inner) => Ok(inner),
            None => Err(BridgeError::closed_table()),
        }
    }
}

} // verus!
