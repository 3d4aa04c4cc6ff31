//! Handles to the two outside systems that the process depends on: the
//! database and the RPC endpoint.
//!
//! A handle is made from the configuration alone. Making one contacts
//! nothing: it fails only where the configured endpoint is not well formed.

use vstd::prelude::*;
use crate::config::{Config, ConfigView, RequiredKey};
use crate::endpoint::{is_well_formed_endpoint, well_formed_endpoint};

verus! {

/// An outside system that the process holds a handle to.
#[derive(Clone, Copy, Debug, PartialEq, Eq, Structural)]
pub enum Resource {
    DatabasePool,
    RpcClient,
}

impl Resource {
    /// The setting that holds the resource's endpoint.
    pub open spec fn key_spec(self) -> RequiredKey {
        match self {
            Resource::DatabasePool => RequiredKey::DatabaseUrl,
            Resource::RpcClient => RequiredKey::SolanaRpcUrl,
        }
    }

    /// The setting that holds the resource's endpoint.
    pub fn key(self) -> (key: RequiredKey)
        ensures
            key == self.key_spec(),
    {
        match self {
            Resource::DatabasePool => RequiredKey::DatabaseUrl,
            Resource::RpcClient => RequiredKey::SolanaRpcUrl,
        }
    }
}

/// Why no handle could be made.
#[derive(Clone, Copy, Debug, PartialEq, Eq, Structural)]
pub enum InitError {
    /// The endpoint configured for the resource is not well formed.
    ResourceInitFailed(Resource),
}

impl InitError {
    /// The resource that could not be initialised.
    pub open spec fn resource_spec(self) -> Resource {
        match self {
            InitError::ResourceInitFailed(resource) => resource,
        }
    }

    /// The resource that could not be initialised.
    pub fn resource(&self) -> (resource: Resource)
        ensures
            resource == self.resource_spec(),
    {
        match self {
            InitError::ResourceInitFailed(resource) => *resource,
        }
    }
}

/// A handle to the database: the connection string that connections will be
/// opened with. None is opened before it is needed.
#[derive(Debug, PartialEq, Eq)]
pub struct PoolHandle {
    url: String,
}

impl View for PoolHandle {
    type V = Seq<char>;

    closed spec fn view(&self) -> Seq<char> {
        self.url@
    }
}

impl Clone for PoolHandle {
    fn clone(&self) -> (copy: PoolHandle)
        ensures
            copy@ == self@,
    {
        proof {
            use_type_invariant(self);
        }
        PoolHandle { url: self.url.clone() }
    }
}

impl PoolHandle {
    #[verifier::type_invariant]
    spec fn is_well_formed(&self) -> bool {
        well_formed_endpoint(self.url@)
    }

    /// The connection string. It is well formed.
    pub fn url(&self) -> (url: &str)
        ensures
            url@ == self@,
            well_formed_endpoint(url@),
    {
        proof {
            use_type_invariant(self);
        }
        self.url.as_str()
    }
}

/// A handle to the RPC endpoint: the URL that requests will be sent to.
#[derive(Debug, PartialEq, Eq)]
pub struct ClientHandle {
    endpoint: String,
}

impl View for ClientHandle {
    type V = Seq<char>;

    closed spec fn view(&self) -> Seq<char> {
        self.endpoint@
    }
}

impl Clone for ClientHandle {
    fn clone(&self) -> (copy: ClientHandle)
        ensures
            copy@ == self@,
    {
        proof {
            use_type_invariant(self);
        }
        ClientHandle { endpoint: self.endpoint.clone() }
    }
}

impl ClientHandle {
    #[verifier::type_invariant]
    spec fn is_well_formed(&self) -> bool {
        well_formed_endpoint(self.endpoint@)
    }

    /// The endpoint's URL. It is well formed.
    pub fn endpoint(&self) -> (endpoint: &str)
        ensures
            endpoint@ == self@,
            well_formed_endpoint(endpoint@),
    {
        proof {
            use_type_invariant(self);
        }
        self.endpoint.as_str()
    }
}

/// What initialising `resource` gives under a configuration: a handle that
/// holds the configured endpoint where that is well formed, and the failure
/// where it is not.
pub open spec fn init_outcome(resource: Resource, config: ConfigView) -> Result<
    Seq<char>,
    InitError,
> {
    let endpoint = config.value(resource.key_spec());
    if well_formed_endpoint(endpoint) {
        Ok(endpoint)
    } else {
        Err(InitError::ResourceInitFailed(resource))
    }
}

/// What a result of [`create_db_pool`] holds.
pub open spec fn pool_created(r: Result<PoolHandle, InitError>) -> Result<Seq<char>, InitError> {
    match r {
        Ok(pool) => Ok(pool@),
        Err(e) => Err(e),
    }
}

/// What a result of [`create_solana_client`] holds.
pub open spec fn client_created(r: Result<ClientHandle, InitError>) -> Result<
    Seq<char>,
    InitError,
> {
    match r {
        Ok(client) => Ok(client@),
        Err(e) => Err(e),
    }
}

/// Makes the handle to the database from the configured connection string.
/// It fails exactly when that string is not a well-formed endpoint.
pub fn create_db_pool(config: &Config) -> (r: Result<PoolHandle, InitError>)
    ensures
        pool_created(r) == init_outcome(Resource::DatabasePool, config@),
{
    let url = config.get(Resource::DatabasePool.key());
    if is_well_formed_endpoint(url) {
        Ok(PoolHandle { url: url.to_owned() })
    } else {
        Err(InitError::ResourceInitFailed(Resource::DatabasePool))
    }
}

/// Makes the handle to the RPC endpoint from the configured URL.
/// It fails exactly when that URL is not a well-formed endpoint.
pub fn create_solana_client(config: &Config) -> (r: Result<ClientHandle, InitError>)
    ensures
        client_created(r) == init_outcome(Resource::RpcClient, config@),
{
    let endpoint = config.get(Resource::RpcClient.key());
    if is_well_formed_endpoint(endpoint) {
        Ok(ClientHandle { endpoint: endpoint.to_owned() })
    } else {
        Err(InitError::ResourceInitFailed(Resource::RpcClient))
    }
}

/// Initialising a resource fails exactly when its configured endpoint is
/// not well formed. A handle that is made holds that endpoint unchanged, and
/// a failure names the resource. No other setting has a say.
pub proof fn init_fails_only_on_malformed(resource: Resource, config: ConfigView)
    ensures
        init_outcome(resource, config) is Err <==> !well_formed_endpoint(
            config.value(resource.key_spec()),
        ),
        init_outcome(resource, config) matches Ok(held) ==> held == config.value(
            resource.key_spec(),
        ),
        init_outcome(resource, config) matches Err(e) ==> e.resource_spec() == resource,
        init_outcome(Resource::DatabasePool, config) is Ok <==> well_formed_endpoint(
            config.database_url,
        ),
        init_outcome(Resource::RpcClient, config) is Ok <==> well_formed_endpoint(
            config.solana_rpc_url,
        ),
{
}

} // verus!
