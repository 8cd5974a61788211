//! Operation requests: what a host call asks of the engine, validated
//! and gathered before anything is scheduled.
//!
//! Every optional setting is applied on its own. A setting that the host
//! left out stays `None`, which the engine reads as its default.

use std::collections::HashMap;
use std::sync::Arc;
use std::time::Duration;
use vstd::prelude::*;
use crate::credentials::{AwsCredential, StaticCredentialProvider};
use crate::mode::CreateMode;

verus! {

/// The settings of a connection to a database.
#[derive(Clone, Debug, PartialEq, Eq)]
pub struct ConnectBuilder {
    pub uri: String,
    pub api_key: Option<String>,
    pub region: Option<String>,
    pub host_override: Option<String>,
    pub aws_creds: Option<AwsCredential>,
    /// How stale a read may be; `None` leaves the engine's consistency
    /// untouched.
    pub read_consistency_interval: Option<Duration>,
    /// Storage options, handed on without being read.
    pub storage_options: Option<HashMap<String, String>>,
}

impl ConnectBuilder {
    /// A connection to `uri` with every option left at its default.
    pub fn new(uri: String) -> (builder: Self)
        ensures
            builder == Self::with_defaults(uri),
    {
        ConnectBuilder {
            uri,
            api_key: None,
            region: None,
            host_override: None,
            aws_creds: None,
            read_consistency_interval: None,
            storage_options: None,
        }
    }

    /// The settings of a connection to `uri` on which no option was set.
    pub open spec fn with_defaults(uri: String) -> Self {
        ConnectBuilder {
            uri,
            api_key: None,
            region: None,
            host_override: None,
            aws_creds: None,
            read_consistency_interval: None,
            storage_options: None,
        }
    }

    /// Sets the API key and leaves the rest as it is.
    pub fn api_key(self, api_key: String) -> (builder: Self)
        ensures
            builder == (Self { api_key: Some(api_key), ..self }),
    {
        let mut builder = self;
        builder.api_key = Some(api_key);
        builder
    }

    /// Sets the region and leaves the rest as it is.
    pub fn region(self, region: String) -> (builder: Self)
        ensures
            builder == (Self { region: Some(region), ..self }),
    {
        let mut builder = self;
        builder.region = Some(region);
        builder
    }

    /// Sets the host to talk to in place of the default one and leaves the rest as it is.
    pub fn host_override(self, host_override: String) -> (builder: Self)
        ensures
            builder == (Self { host_override: Some(host_override), ..self }),
    {
        let mut builder = self;
        builder.host_override = Some(host_override);
        builder
    }

    /// Sets the storage credential and leaves the rest as it is.
    pub fn aws_creds(self, aws_creds: AwsCredential) -> (builder: Self)
        ensures
            builder == (Self { aws_creds: Some(aws_creds), ..self }),
    {
        let mut builder = self;
        builder.aws_creds = Some(aws_creds);
        builder
    }

    /// Sets the read-consistency interval and leaves the rest as it is.
    pub fn read_consistency_interval(self, read_consistency_interval: Duration) -> (builder: Self)
        ensures
            builder == (Self {
                read_consistency_interval: Some(read_consistency_interval),
                ..self
            }),
    {
        let mut builder = self;
        builder.read_consistency_interval = Some(read_consistency_interval);
        builder
    }

    /// Sets the storage options and leaves the rest as it is.
    pub fn storage_options(self, storage_options: HashMap<String, String>) -> (builder: Self)
        ensures
            builder == (Self { storage_options: Some(storage_options), ..self }),
    {
        let mut builder = self;
        builder.storage_options = Some(storage_options);
        builder
    }
}

/// Gathers the settings of a new connection from optional values.
///
/// Each value that is there is applied on its own; each one left out
/// stays `None`. No combination is refused.
pub fn connect(
    uri: String,
    api_key: Option<String>,
    region: Option<String>,
    host_override: Option<String>,
    read_consistency_interval: Option<Duration>,
    storage_options: Option<HashMap<String, String>>,
) -> (builder: ConnectBuilder)
    ensures
        builder == (ConnectBuilder {
            uri,
            api_key,
            region,
            host_override,
            aws_creds: None,
            read_consistency_interval,
            storage_options,
        }),
{
    let mut builder = ConnectBuilder::new(uri);
    if let Some(api_key) = api_key {
        builder = builder.api_key(api_key);
    }
    if let Some(region) = region {
        builder = builder.region(region);
    }
    if let Some(host_override) = host_override {
        builder = builder.host_override(host_override);
    }
    if let Some(read_consistency_interval) = read_consistency_interval {
        builder = builder.read_consistency_interval(read_consistency_interval);
    }
    if let Some(storage_options) = storage_options {
        builder = builder.storage_options(storage_options);
    }
    builder
}

/// A request for the names of the tables of a database.
#[derive(Clone, Debug, PartialEq, Eq)]
pub struct TableNamesBuilder {
    /// Only names that sort after this one are listed.
    pub start_after: Option<String>,
    /// At most this many names are listed.
    pub limit: Option<u32>,
}

impl TableNamesBuilder {
    /// A request for all names.
    pub fn new() -> (builder: Self)
        ensures
            builder == (Self { start_after: None, limit: None }),
    {
        TableNamesBuilder { start_after: None, limit: None }
    }

    /// Sets the name after which the listing starts and leaves the rest as it is.
    pub fn start_after(self, start_after: String) -> (builder: Self)
        ensures
            builder == (Self { start_after: Some(start_after), ..self }),
    {
        let mut builder = self;
        builder.start_after = Some(start_after);
        builder
    }

    /// Sets the largest number of names to list and leaves the rest as it is.
    pub fn limit(self, limit: u32) -> (builder: Self)
        ensures
            builder == (Self { limit: Some(limit), ..self }),
    {
        let mut builder = self;
        builder.limit = Some(limit);
        builder
    }
}

/// How the object store behind a table is reached.
#[derive(Clone, Debug, PartialEq, Eq)]
pub struct ObjectStoreParams {
    pub aws_credentials: Option<Arc<StaticCredentialProvider<AwsCredential>>>,
    pub aws_region: Option<String>,
}

impl ObjectStoreParams {
    /// Store parameters made of a credential provider and a region, each
    /// of which may be absent.
    pub fn with_aws_credentials(
        aws_credentials: Option<Arc<StaticCredentialProvider<AwsCredential>>>,
        region: Option<String>,
    ) -> (params: Self)
        ensures
            params == (Self { aws_credentials, aws_region: region }),
    {
        ObjectStoreParams { aws_credentials, aws_region: region }
    }
}

/// Overrides for reading a table.
#[derive(Clone, Debug, PartialEq, Eq)]
pub struct ReadParams {
    pub store_options: Option<ObjectStoreParams>,
}

impl Default for ReadParams {
    /// Read parameters that override nothing.
    fn default() -> (params: Self)
        ensures
            params == (ReadParams { store_options: None }),
    {
        ReadParams { store_options: None }
    }
}

/// A request to open an existing table.
#[derive(Clone, Debug, PartialEq, Eq)]
pub struct OpenTableBuilder {
    pub name: String,
    pub index_cache_size: Option<u32>,
    pub lance_read_params: Option<ReadParams>,
    /// Storage options, handed on without being read.
    pub storage_options: Option<HashMap<String, String>>,
}

impl OpenTableBuilder {
    /// A request to open the table `name` with every override left out.
    pub fn new(name: String) -> (builder: Self)
        ensures
            builder == Self::with_defaults(name),
    {
        OpenTableBuilder {
            name,
            index_cache_size: None,
            lance_read_params: None,
            storage_options: None,
        }
    }

    /// The request to open `name` on which no override was set.
    pub open spec fn with_defaults(name: String) -> Self {
        OpenTableBuilder {
            name,
            index_cache_size: None,
            lance_read_params: None,
            storage_options: None,
        }
    }

    /// Sets the size of the index cache and leaves the rest as it is.
    pub fn index_cache_size(self, index_cache_size: u32) -> (builder: Self)
        ensures
            builder == (Self { index_cache_size: Some(index_cache_size), ..self }),
    {
        let mut builder = self;
        builder.index_cache_size = Some(index_cache_size);
        builder
    }

    /// Sets the read overrides and leaves the rest as it is.
    pub fn lance_read_params(self, params: ReadParams) -> (builder: Self)
        ensures
            builder == (Self { lance_read_params: Some(params), ..self }),
    {
        let mut builder = self;
        builder.lance_read_params = Some(params);
        builder
    }

    /// Sets the storage options and leaves the rest as it is.
    pub fn storage_options(self, storage_options: HashMap<String, String>) -> (builder: Self)
        ensures
            builder == (Self { storage_options: Some(storage_options), ..self }),
    {
        let mut builder = self;
        builder.storage_options = Some(storage_options);
        builder
    }
}

/// A request to create a table from a payload: the initial data, or the
/// schema of an empty table.
#[derive(Clone, Debug, PartialEq, Eq)]
pub struct CreateTableBuilder<P> {
    pub name: String,
    pub payload: P,
    pub mode: CreateMode,
    /// Storage options, handed on without being read.
    pub storage_options: Option<HashMap<String, String>>,
}

impl<P> CreateTableBuilder<P> {
    /// A request to create the table `name`, failing if it exists.
    pub fn new(name: String, payload: P) -> (builder: Self)
        ensures
            builder == (Self { name, payload, mode: CreateMode::Create, storage_options: None }),
    {
        CreateTableBuilder { name, payload, mode: CreateMode::Create, storage_options: None }
    }

    /// Sets the creation mode and leaves the rest as it is.
    pub fn mode(self, mode: CreateMode) -> (builder: Self)
        ensures
            builder == (Self { mode, ..self }),
    {
        let mut builder = self;
        builder.mode = mode;
        builder
    }

    /// Sets the storage options and leaves the rest as it is.
    pub fn storage_options(self, storage_options: HashMap<String, String>) -> (builder: Self)
        ensures
            builder == (Self { storage_options: Some(storage_options), ..self }),
    {
        let mut builder = self;
        builder.storage_options = Some(storage_options);
        builder
    }
}

/// A request to drop one table.
#[derive(Clone, Debug, PartialEq, Eq)]
pub struct DropTable {
    pub name: String,
}

/// A request to drop every table of a database.
#[derive(Clone, Copy, Debug, PartialEq, Eq)]
pub struct DropDatabase;

} // verus!
