//! Entry points of a host that passes its arguments by position.
//!
//! Such a host hands over the whole argument list of a call. Optional
//! arguments are read from fixed positions, and a value of the wrong
//! type counts as left out.

use std::sync::Arc;
use std::time::Duration;
use vstd::prelude::*;
use crate::connection::{Connection, Operation, prepares};
use crate::credentials::{
    AwsCredential, AwsCredentialView, StaticCredentialProvider, credentials_at, get_aws_creds,
    get_aws_credential_provider, get_aws_region,
};
use crate::error::{BridgeError, closed_connection_error};
use crate::host::{HostValue, argument_text};
use crate::request::{
    ConnectBuilder, DropTable, ObjectStoreParams, OpenTableBuilder, ReadParams, TableNamesBuilder,
};

verus! {

/// Position of the key id in a call; secret and token follow it.
pub const CREDENTIALS_AT: i32 = 1;

/// Position of the region in a call.
pub const REGION_AT: i32 = 4;

/// Whether `builder` holds the connection settings that a positional
/// call asks for, given the credential read from the call.
pub open spec fn is_database_new_of(
    builder: ConnectBuilder,
    path: String,
    args: Seq<HostValue>,
    credential: Option<AwsCredentialView>,
    read_consistency_interval: Option<Duration>,
) -> bool {
    &&& builder.uri == path
    &&& builder.api_key is None
    &&& builder.host_override is None
    &&& builder.storage_options is None
    &&& builder.region.deep_view() == argument_text(args, REGION_AT as int)
    &&& builder.aws_creds.deep_view() == credential
    &&& builder.read_consistency_interval == read_consistency_interval
}

/// Gathers the settings of a new connection from a positional call.
///
/// `args` is the whole argument list of the call. The path, at position
/// 0, and the read-consistency interval have been read by the caller.
/// The credential is validated first, and a bad combination is the only
/// failure.
pub fn database_new(
    path: String,
    args: &[HostValue],
    read_consistency_interval: Option<Duration>,
) -> (res: Result<ConnectBuilder, BridgeError>)
    ensures
        match credentials_at(args@, CREDENTIALS_AT as int) {
            Ok(credential) => res matches Ok(builder) && is_database_new_of(
                builder,
                path,
                args@,
                credential,
                read_consistency_interval,
            ),
            Err(e) => res matches Err(got) && got@ == e,
        },
{
    let aws_creds = get_aws_creds(args, CREDENTIALS_AT)?;
    let region = get_aws_region(args, REGION_AT);
    let mut conn_builder = ConnectBuilder::new(path);
    if let Some(region) = region {
        conn_builder = conn_builder.region(region);
    }
    if let Some(aws_creds) = aws_creds {
        conn_builder = conn_builder.aws_creds(aws_creds);
    }
    if let Some(interval) = read_consistency_interval {
        conn_builder = conn_builder.read_consistency_interval(interval);
    }
    Ok(conn_builder)
}

/// Prepares the listing of all table names of a database.
pub fn database_table_names<R>(db: &Connection<R>) -> (res: Result<
    Operation<R, TableNamesBuilder>,
    BridgeError,
>)
    ensures
        prepares(res, db@, TableNamesBuilder { start_after: None, limit: None }),
{
    db.table_names(None, None)
}

/// The credential that store parameters carry, if any.
pub open spec fn provided_credential(
    provider: Option<Arc<StaticCredentialProvider<AwsCredential>>>,
) -> Option<AwsCredentialView> {
    match provider {
        Some(p) => Some(p@@),
        None => None,
    }
}

/// Whether `request` opens `table_name` with the store parameters that a
/// positional call asks for, given the credential read from the call.
/// The store parameters are always there, even when they hold nothing.
pub open spec fn is_database_open_of(
    request: OpenTableBuilder,
    table_name: String,
    args: Seq<HostValue>,
    credential: Option<AwsCredentialView>,
) -> bool {
    &&& request.name == table_name
    &&& request.index_cache_size is None
    &&& request.storage_options is None
    &&& request.lance_read_params matches Some(params)
    &&& params.store_options matches Some(store)
    &&& store.aws_region.deep_view() == argument_text(args, REGION_AT as int)
    &&& provided_credential(store.aws_credentials) == credential
}

/// Prepares the opening of a table from a positional call.
///
/// `args` is the whole argument list of the call; the table name, at
/// position 0, has been read by the caller. The handle is checked before
/// the credential.
pub fn database_open_table<R>(db: &Connection<R>, table_name: String, args: &[HostValue]) -> (res:
    Result<Operation<R, OpenTableBuilder>, BridgeError>)
    ensures
        match db@ {
            None => res matches Err(e) && e@ == closed_connection_error(),
            Some(resource) => match credentials_at(args@, CREDENTIALS_AT as int) {
                Err(e) => res matches Err(got) && got@ == e,
                Ok(credential) => {
                    &&& res matches Ok(op)
                    &&& *op.resource == resource
                    &&& is_database_open_of(op.request, table_name, args@, credential)
                },
            },
        },
{
    let opened = db.open_table(table_name, None, None)?;
    let aws_creds = get_aws_credential_provider(args, CREDENTIALS_AT)?;
    let aws_region = get_aws_region(args, REGION_AT);
    let mut params = ReadParams::default();
    params.store_options = Some(ObjectStoreParams::with_aws_credentials(aws_creds, aws_region));
    Ok(
        Operation {
            resource: opened.resource,
            request: opened.request.lance_read_params(params),
        },
    )
}

/// Prepares the dropping of one table of a database.
pub fn database_drop_table<R>(db: &Connection<R>, table_name: String) -> (res: Result<
    Operation<R, DropTable>,
    BridgeError,
>)
    ensures
        prepares(res, db@, DropTable { name: table_name }),
{
    db.drop_table(table_name)
}

} // verus!
