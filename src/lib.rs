//! A typed wrapper around the Azure command-line tool, focused on Cosmos DB.
//!
//! The library builds the argument list of each tool invocation, decides what
//! the outcome of a finished invocation means, and decodes the tool's JSON
//! output onto typed records, tolerating alternate key spellings. Spawning
//! the process and reading its pipes are left to the caller, which hands the
//! captured outcome back as a [`ProcessOutput`].

pub mod builder;
pub mod client;
pub mod codec;
pub mod commands;
pub mod error;
pub mod executor;
pub mod json;
pub mod models;
pub mod parse;
pub mod text;

pub use builder::{format_bool_param, format_optional_param, AzCommandBuilder};
pub use client::AzureClient;
pub use codec::{decode_list, encode_list, JsonShape};
pub use commands::account::AccountCommands;
pub use commands::cosmos::CosmosCommands;
pub use error::AzureError;
pub use executor::ProcessOutput;
pub use json::JsonValue;
pub use models::{
    AccountIdentity,
    AccountLocation,
    AnalyticalStorageConfiguration,
    ApiProperties,
    AutoscaleSettings,
    BackupPolicy,
    Capability,
    CapacitySettings,
    ConnectionString,
    ConsistencyPolicy,
    ContinuousBackupProperties,
    CorsPolicy,
    CosmosAccount,
    CosmosConnectionStrings,
    CosmosContainer,
    CosmosDatabase,
    CosmosKeys,
    FailoverPolicy,
    IndexPath,
    IndexingPolicy,
    IpRule,
    KeyMetadata,
    KeysMetadata,
    PartitionKey,
    PeriodicBackupProperties,
    PrivateEndpoint,
    PrivateEndpointConnection,
    PrivateLinkServiceConnectionState,
    ResourceGroup,
    ResourceGroupProperties,
    RestoreParameters,
    Subscription,
    SystemData,
    ThroughputSettings,
    VirtualNetworkRule,
};
