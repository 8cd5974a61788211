//! The connection handle and its operations.
//!
//! A handle owns an optional shared reference to a native resource. It
//! is open while the reference is there; closing takes the reference
//! away for good. Every operation checks the handle first, on the
//! caller's own stack, so that a closed handle is reported at once and
//! nothing is handed to the engine.

use std::collections::HashMap;
use std::sync::Arc;
use vstd::prelude::*;
use vstd::string::to_string_from_display_ensures;
use crate::error::{
    BridgeError, ErrorView, NativeError, closed_connection_error, conversion_error,
    invalid_mode_error, translate,
};
use crate::mode::{CreateMode, mode_of, parse_create_mode_str};
use crate::request::{
    CreateTableBuilder, DropDatabase, DropTable, OpenTableBuilder, TableNamesBuilder,
};
use crate::share::share;

verus! {

/// A validated operation, ready to be scheduled: the native resource it
/// runs against, shared with the handle it came from, and the request.
///
/// It holds all that the engine needs, so the handle may be closed or
/// dropped while the operation is in flight.
#[derive(Debug)]
pub struct Operation<R, Q> {
    pub resource: Arc<R>,
    pub request: Q,
}

/// A handle on a database connection.
#[derive(Debug)]
pub struct Connection<R> {
    inner: Option<Arc<R>>,
}

impl<R> View for Connection<R> {
    type V = Option<R>;

    /// The native connection behind an open handle; `None` once closed.
    closed spec fn view(&self) -> Option<R> {
        match self.inner {
            Some(resource) => Some(*resource),
            None => None,
        }
    }
}

impl<R> Clone for Connection<R> {
    /// A second handle on the same native connection. The two handles
    /// share the resource and nothing else: closing one leaves the other
    /// as it is.
    fn clone(&self) -> (other: Self)
        ensures
            other@ == self@,
    {
        match &self.inner {
            Some(inner) => Connection { inner: Some(share(inner)) },
            None => Connection { inner: None },
        }
    }
}

/// Whether `res` is what an operation without further checks answers on
/// a handle: on an open one the operation, made of the handle's resource
/// and of `request`; on a closed one the error of a closed connection.
pub open spec fn prepares<R, Q>(
    res: Result<Operation<R, Q>, BridgeError>,
    handle: Option<R>,
    request: Q,
) -> bool {
    match handle {
        Some(resource) => {
            &&& res matches Ok(op)
            &&& *op.resource == resource
            &&& op.request == request
        },
        None => res matches Err(e) && e@ == closed_connection_error(),
    }
}

/// A handle after `close`, whatever it was before.
pub open spec fn closed<R>(handle: Option<R>) -> Option<R> {
    None
}

/// What the first stage of a table creation yields: the connection's
/// resource and the parsed mode, or the error of the first check that
/// failed. The handle is checked before the mode.
pub open spec fn create_checks<R>(handle: Option<R>, mode: Seq<char>) -> Result<
    (R, CreateMode),
    ErrorView,
> {
    match handle {
        None => Err(closed_connection_error()),
        Some(resource) => match mode_of(mode) {
            None => Err(invalid_mode_error(mode)),
            Some(m) => Ok((resource, m)),
        },
    }
}

/// Whether `res` is the table creation that the arguments ask for, on a
/// connection whose checks gave `checks` and with a payload whose
/// conversion gave `payload`.
pub open spec fn is_create_of<R, P>(
    res: Result<Operation<R, CreateTableBuilder<P>>, BridgeError>,
    checks: Result<(R, CreateMode), ErrorView>,
    name: String,
    payload: Result<P, String>,
    storage_options: Option<HashMap<String, String>>,
) -> bool {
    match checks {
        Err(e) => res matches Err(got) && got@ == e,
        Ok((resource, mode)) => match payload {
            Err(message) => res matches Err(got) && got@ == conversion_error(message@),
            Ok(p) => {
                &&& res matches Ok(op)
                &&& *op.resource == resource
                &&& op.request == (CreateTableBuilder { name, payload: p, mode, storage_options })
            },
        },
    }
}

impl<R> Connection<R> {
    /// An open handle on `inner`.
    pub fn new(inner: R) -> (handle: Self)
        ensures
            handle@ == Some(inner),
    {
        Connection { inner: Some(Arc::new(inner)) }
    }

    /// Whether the handle is open.
    pub fn is_open(&self) -> (open: bool)
        ensures
            open == (self@ is Some),
    {
        self.inner.is_some()
    }

    /// Closes the handle. Closing a closed handle changes nothing.
    pub fn close(&mut self)
        ensures
            final(self)@ == closed(old(self)@),
    {
        self.inner.take();
    }

    /// The native connection of an open handle, or the error of a closed
    /// one.
    pub fn get_inner(&self) -> (res: Result<&Arc<R>, BridgeError>)
        ensures
            match self@ {
                Some(resource) => res matches Ok(inner) && **inner == resource,
                None => res matches Err(e) && e@ == closed_connection_error(),
            },
    {
        match &self.inner {
            Some(inner) => Ok(inner),
            None => Err(BridgeError::closed_connection()),
        }
    }

    /// Prepares the listing of table names.
    pub fn table_names(&self, start_after: Option<String>, limit: Option<u32>) -> (res: Result<
        Operation<R, TableNamesBuilder>,
        BridgeError,
    >)
        ensures
            prepares(res, self@, TableNamesBuilder { start_after, limit }),
    {
        let resource = share(self.get_inner()?);
        let mut request = TableNamesBuilder::new();
        if let Some(start_after) = start_after {
            request = request.start_after(start_after);
        }
        if let Some(limit) = limit {
            request = request.limit(limit);
        }
        Ok(Operation { resource, request })
    }

    /// The checks that come before a table creation: the handle must be
    /// open and `mode` must name a creation mode.
    pub fn check_create(&self, mode: &str) -> (res: Result<(Arc<R>, CreateMode), BridgeError>)
        ensures
            match create_checks(self@, mode@) {
                Ok((resource, m)) => res matches Ok(got) && *got.0 == resource && got.1 == m,
                Err(e) => res matches Err(got) && got@ == e,
            },
    {
        let resource = share(self.get_inner()?);
        let mode = parse_create_mode_str(mode)?;
        Ok((resource, mode))
    }

    /// Prepares the creation of a table from a payload that the caller
    /// has converted already. A failed conversion is reported as a
    /// conversion failure with the converter's message, after the checks
    /// on the handle and the mode.
    pub fn create_table_from<P>(
        &self,
        name: String,
        mode: &str,
        payload: Result<P, String>,
        storage_options: Option<HashMap<String, String>>,
    ) -> (res: Result<Operation<R, CreateTableBuilder<P>>, BridgeError>)
        ensures
            is_create_of(res, create_checks(self@, mode@), name, payload, storage_options),
    {
        let (resource, mode) = self.check_create(mode)?;
        finish_create(resource, mode, name, payload, storage_options)
    }

    /// Prepares the creation of a table filled with data.
    ///
    /// `data` converts the host's data into batches. It is called only
    /// once the handle and the mode have passed their checks, so a closed
    /// handle or a bad mode is reported without the data being touched.
    pub fn create_table<D, F: FnOnce() -> Result<D, String>>(
        &self,
        name: String,
        mode: &str,
        data: F,
        storage_options: Option<HashMap<String, String>>,
    ) -> (res: Result<Operation<R, CreateTableBuilder<D>>, BridgeError>)
        requires
            data.requires(()),
        ensures
            match create_checks(self@, mode@) {
                Err(e) => res matches Err(got) && got@ == e,
                Ok(_) => exists|payload: Result<D, String>|
                    data.ensures((), payload) && is_create_of(
                        res,
                        create_checks(self@, mode@),
                        name,
                        payload,
                        storage_options,
                    ),
            },
    {
        let (resource, mode) = self.check_create(mode)?;
        let payload = data();
        finish_create(resource, mode, name, payload, storage_options)
    }

    /// Prepares the creation of an empty table with a schema.
    ///
    /// `schema` converts the host's schema. It is called only once the
    /// handle and the mode have passed their checks.
    pub fn create_empty_table<S, F: FnOnce() -> Result<S, String>>(
        &self,
        name: String,
        mode: &str,
        schema: F,
        storage_options: Option<HashMap<String, String>>,
    ) -> (res: Result<Operation<R, CreateTableBuilder<S>>, BridgeError>)
        requires
            schema.requires(()),
        ensures
            match create_checks(self@, mode@) {
                Err(e) => res matches Err(got) && got@ == e,
                Ok(_) => exists|payload: Result<S, String>|
                    schema.ensures((), payload) && is_create_of(
                        res,
                        create_checks(self@, mode@),
                        name,
                        payload,
                        storage_options,
                    ),
            },
    {
        let (resource, mode) = self.check_create(mode)?;
        let payload = schema();
        finish_create(resource, mode, name, payload, storage_options)
    }

    /// Prepares the opening of a table.
    pub fn open_table(
        &self,
        name: String,
        storage_options: Option<HashMap<String, String>>,
        index_cache_size: Option<u32>,
    ) -> (res: Result<Operation<R, OpenTableBuilder>, BridgeError>)
        ensures
            prepares(
                res,
                self@,
                OpenTableBuilder { name, index_cache_size, lance_read_params: None, storage_options },
            ),
    {
        let resource = share(self.get_inner()?);
        let mut request = OpenTableBuilder::new(name);
        if let Some(storage_options) = storage_options {
            request = request.storage_options(storage_options);
        }
        if let Some(index_cache_size) = index_cache_size {
            request = request.index_cache_size(index_cache_size);
        }
        Ok(Operation { resource, request })
    }

    /// Prepares the dropping of one table.
    pub fn drop_table(&self, name: String) -> (res: Result<Operation<R, DropTable>, BridgeError>)
        ensures
            prepares(res, self@, DropTable { name }),
    {
        let resource = share(self.get_inner()?);
        Ok(Operation { resource, request: DropTable { name } })
    }

    /// Prepares the dropping of the whole database.
    pub fn drop_db(&self) -> (res: Result<Operation<R, DropDatabase>, BridgeError>)
        ensures
            prepares(res, self@, DropDatabase),
    {
        let resource = share(self.get_inner()?);
        Ok(Operation { resource, request: DropDatabase })
    }
}

/// Builds the creation request once the checks have passed and the
/// payload's conversion has been tried.
fn finish_create<R, P>(
    resource: Arc<R>,
    mode: CreateMode,
    name: String,
    payload: Result<P, String>,
    storage_options: Option<HashMap<String, String>>,
) -> (res: Result<Operation<R, CreateTableBuilder<P>>, BridgeError>)
    ensures
        is_create_of(res, Ok((*resource, mode)), name, payload, storage_options),
{
    match payload {
        Ok(payload) => {
            let mut request = CreateTableBuilder::new(name, payload).mode(mode);
            if let Some(storage_options) = storage_options {
                request = request.storage_options(storage_options);
            }
            Ok(Operation { resource, request })
        },
        Err(message) => Err(translate(NativeError::Payload(message))),
    }
}

impl<R: core::fmt::Display> Connection<R> {
    /// The text that the host shows for the handle: the native
    /// connection's own description while open, `ClosedConnection` after.
    pub fn __repr__(&self) -> (text: String)
        ensures
            match self@ {
                Some(resource) => to_string_from_display_ensures::<R>(&resource, text),
                None => text@ == "ClosedConnection"@,
            },
    {
        match &self.inner {
            Some(inner) => {
                let resource: &R = &**inner;
                resource.to_string()
            },
            None => "ClosedConnection".to_owned(),
        }
    }
}

/// Use after close fails at once: on a closed handle every operation
/// answers with the error of a closed connection, whatever was asked
/// for, and a table creation does so before it looks at the mode or at
/// the payload.
pub proof fn closed_handle_refuses<R, Q, P>(
    res: Result<Operation<R, Q>, BridgeError>,
    request: Q,
    created: Result<Operation<R, CreateTableBuilder<P>>, BridgeError>,
    name: String,
    mode: Seq<char>,
    payload: Result<P, String>,
    storage_options: Option<HashMap<String, String>>,
)
    requires
        prepares(res, None, request),
        is_create_of(created, create_checks(None, mode), name, payload, storage_options),
    ensures
        res is Err,
        res->Err_0@ == closed_connection_error(),
        created is Err,
        created->Err_0@ == closed_connection_error(),
{
}

/// Closing twice is closing once, and closing a closed handle leaves it
/// as it was.
pub proof fn close_is_idempotent<R>(handle: Option<R>)
    ensures
        closed(closed(handle)) == closed(handle),
        handle is None ==> closed(handle) == handle,
{
}

} // verus!
