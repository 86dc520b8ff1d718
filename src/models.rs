//! Records that the tool prints, with their JSON forms.

use vstd::prelude::*;
use crate::codec::{
    JsonShape,
    dec_opt_bool,
    dec_opt_i32,
    dec_opt_i64,
    dec_opt_json_map,
    dec_opt_shape,
    dec_opt_shapes,
    dec_opt_str,
    dec_opt_str_map,
    dec_opt_strs,
    dec_req_i32,
    dec_req_shapes,
    dec_req_str,
    dec_req_strs,
    enc_i32,
    enc_opt_bool,
    enc_opt_i32,
    enc_opt_i64,
    enc_opt_json_map,
    enc_opt_shape,
    enc_opt_shapes,
    enc_opt_str,
    enc_opt_str_map,
    enc_opt_strs,
    enc_shapes,
    enc_str,
    enc_strs,
    i32_json,
    lemma_opt_bool,
    lemma_opt_i32,
    lemma_opt_i64,
    lemma_opt_json_map,
    lemma_opt_shape,
    lemma_opt_shapes,
    lemma_opt_str,
    lemma_opt_str_map,
    lemma_opt_strs,
    lemma_req_i32,
    lemma_req_shapes,
    lemma_req_str,
    lemma_req_strs,
    ok_opt_bool,
    ok_opt_i32,
    ok_opt_i64,
    ok_opt_json_map,
    ok_opt_shape,
    ok_opt_shapes,
    ok_opt_str,
    ok_opt_str_map,
    ok_opt_strs,
    ok_req_i32,
    ok_req_shapes,
    ok_req_str,
    ok_req_strs,
    opt_bool,
    opt_bool_json,
    opt_i32,
    opt_i32_json,
    opt_i64,
    opt_i64_json,
    opt_json_map,
    opt_json_map_json,
    opt_shape,
    opt_shape_json,
    opt_shapes,
    opt_shapes_json,
    opt_str,
    opt_str_json,
    opt_str_map,
    opt_str_map_json,
    opt_strs,
    opt_strs_json,
    req_i32,
    req_shapes,
    req_str,
    req_strs,
    shapes_json,
    str_json,
    strs_json,
};
use crate::error::AzureError;
use crate::json::{
    field_of, is_object, key_views, lemma_field_at, names_of, not_an_object, JsonValue,
};

verus! {

/// Azure Subscription information
#[derive(Debug, Clone)]
pub struct Subscription {
    /// Subscription ID
    pub id: String,
    /// Subscription name
    pub display_name: String,
    /// Subscription state
    pub state: String,
    /// Tenant ID
    pub tenant_id: String,
    /// Whether this is the default subscription
    pub is_default: Option<bool>,
}

/// The member names of the JSON form of [`Subscription`], in order.
pub open spec fn subscription_member_names() -> Seq<Seq<char>> {
    Seq::empty()
        .push("id"@)
        .push("display_name"@)
        .push("state"@)
        .push("tenant_id"@)
        .push("is_default"@)
}

impl JsonShape for Subscription {
    open spec fn decodable(j: JsonValue) -> bool {
        &&& j is Object
        &&& ok_req_str(field_of(j, seq!["id"@]))
        &&& ok_req_str(field_of(j, seq!["display_name"@, "name"@]))
        &&& ok_req_str(field_of(j, seq!["state"@]))
        &&& ok_req_str(field_of(j, seq!["tenant_id"@, "tenantId"@]))
        &&& ok_opt_bool(field_of(j, seq!["is_default"@, "isDefault"@]))
    }

    open spec fn decodes(j: JsonValue, x: Self) -> bool {
        &&& j is Object
        &&& dec_req_str(field_of(j, seq!["id"@]), x.id)
        &&& dec_req_str(field_of(j, seq!["display_name"@, "name"@]), x.display_name)
        &&& dec_req_str(field_of(j, seq!["state"@]), x.state)
        &&& dec_req_str(field_of(j, seq!["tenant_id"@, "tenantId"@]), x.tenant_id)
        &&& dec_opt_bool(field_of(j, seq!["is_default"@, "isDefault"@]), x.is_default)
    }

    open spec fn encodes(&self, j: JsonValue) -> bool {
        &&& j is Object
        &&& names_of(j->Object_0@) == subscription_member_names()
        &&& enc_str(self.id, j->Object_0@[0].1)
        &&& enc_str(self.display_name, j->Object_0@[1].1)
        &&& enc_str(self.state, j->Object_0@[2].1)
        &&& enc_str(self.tenant_id, j->Object_0@[3].1)
        &&& enc_opt_bool(self.is_default, j->Object_0@[4].1)
    }

    fn from_json(j: &JsonValue) -> (r: Result<Self, AzureError>) {
        if !is_object(j) {
            return Err(not_an_object());
        }
        let k: &[&str] = &["id"];
        assert(key_views(k@) =~= seq!["id"@]);
        let id = match req_str(j, k) {
            Ok(v) => v,
            Err(e) => {
                return Err(e);
            },
        };
        let k: &[&str] = &["display_name", "name"];
        assert(key_views(k@) =~= seq!["display_name"@, "name"@]);
        let display_name = match req_str(j, k) {
            Ok(v) => v,
            Err(e) => {
                return Err(e);
            },
        };
        let k: &[&str] = &["state"];
        assert(key_views(k@) =~= seq!["state"@]);
        let state = match req_str(j, k) {
            Ok(v) => v,
            Err(e) => {
                return Err(e);
            },
        };
        let k: &[&str] = &["tenant_id", "tenantId"];
        assert(key_views(k@) =~= seq!["tenant_id"@, "tenantId"@]);
        let tenant_id = match req_str(j, k) {
            Ok(v) => v,
            Err(e) => {
                return Err(e);
            },
        };
        let k: &[&str] = &["is_default", "isDefault"];
        assert(key_views(k@) =~= seq!["is_default"@, "isDefault"@]);
        let is_default = match opt_bool(j, k) {
            Ok(v) => v,
            Err(e) => {
                return Err(e);
            },
        };
        Ok(Subscription { id, display_name, state, tenant_id, is_default })
    }

    fn to_json(&self) -> (r: JsonValue) {
        let mut es: Vec<(String, JsonValue)> = Vec::new();
        es.push((String::from_str("id"), str_json(&self.id)));
        es.push((String::from_str("display_name"), str_json(&self.display_name)));
        es.push((String::from_str("state"), str_json(&self.state)));
        es.push((String::from_str("tenant_id"), str_json(&self.tenant_id)));
        es.push((String::from_str("is_default"), opt_bool_json(&self.is_default)));
        assert(names_of(es@) =~= subscription_member_names());
        JsonValue::Object(es)
    }

    proof fn lemma_encoding_decodes(&self, j: JsonValue) {
        reveal_strlit("display_name");
        reveal_strlit("id");
        reveal_strlit("isDefault");
        reveal_strlit("is_default");
        reveal_strlit("name");
        reveal_strlit("state");
        reveal_strlit("tenantId");
        reveal_strlit("tenant_id");
        let es = j->Object_0@;
        let names = subscription_member_names();
        assert("display_name"@.len() == 12);
        assert("id"@.len() == 2);
        assert("is_default"@.len() == 10);
        assert("state"@.len() == 5);
        assert("tenant_id"@.len() == 9);
        lemma_field_at(j, names, seq!["id"@], 0);
        lemma_req_str(self.id, es[0].1);
        lemma_field_at(j, names, seq!["display_name"@, "name"@], 1);
        lemma_req_str(self.display_name, es[1].1);
        lemma_field_at(j, names, seq!["state"@], 2);
        lemma_req_str(self.state, es[2].1);
        lemma_field_at(j, names, seq!["tenant_id"@, "tenantId"@], 3);
        lemma_req_str(self.tenant_id, es[3].1);
        lemma_field_at(j, names, seq!["is_default"@, "isDefault"@], 4);
        lemma_opt_bool(self.is_default, es[4].1);
    }
}

/// Resource Group information
#[derive(Debug, Clone)]
pub struct ResourceGroup {
    /// Resource group name
    pub name: String,
    /// Resource group ID
    pub id: String,
    /// Resource group location
    pub location: String,
    /// Associated tags (name and value pairs)
    pub tags: Option<Vec<(String, String)>>,
    /// Provisioning state within properties
    pub properties: Option<ResourceGroupProperties>,
}

/// The member names of the JSON form of [`ResourceGroup`], in order.
pub open spec fn resource_group_member_names() -> Seq<Seq<char>> {
    Seq::empty()
        .push("name"@)
        .push("id"@)
        .push("location"@)
        .push("tags"@)
        .push("properties"@)
}

impl JsonShape for ResourceGroup {
    open spec fn decodable(j: JsonValue) -> bool {
        &&& j is Object
        &&& ok_req_str(field_of(j, seq!["name"@]))
        &&& ok_req_str(field_of(j, seq!["id"@]))
        &&& ok_req_str(field_of(j, seq!["location"@]))
        &&& ok_opt_str_map(field_of(j, seq!["tags"@]))
        &&& ok_opt_shape::<ResourceGroupProperties>(field_of(j, seq!["properties"@]))
    }

    open spec fn decodes(j: JsonValue, x: Self) -> bool {
        &&& j is Object
        &&& dec_req_str(field_of(j, seq!["name"@]), x.name)
        &&& dec_req_str(field_of(j, seq!["id"@]), x.id)
        &&& dec_req_str(field_of(j, seq!["location"@]), x.location)
        &&& dec_opt_str_map(field_of(j, seq!["tags"@]), x.tags)
        &&& dec_opt_shape(field_of(j, seq!["properties"@]), x.properties)
    }

    open spec fn encodes(&self, j: JsonValue) -> bool {
        &&& j is Object
        &&& names_of(j->Object_0@) == resource_group_member_names()
        &&& enc_str(self.name, j->Object_0@[0].1)
        &&& enc_str(self.id, j->Object_0@[1].1)
        &&& enc_str(self.location, j->Object_0@[2].1)
        &&& enc_opt_str_map(self.tags, j->Object_0@[3].1)
        &&& enc_opt_shape(self.properties, j->Object_0@[4].1)
    }

    fn from_json(j: &JsonValue) -> (r: Result<Self, AzureError>) {
        if !is_object(j) {
            return Err(not_an_object());
        }
        let k: &[&str] = &["name"];
        assert(key_views(k@) =~= seq!["name"@]);
        let name = match req_str(j, k) {
            Ok(v) => v,
            Err(e) => {
                return Err(e);
            },
        };
        let k: &[&str] = &["id"];
        assert(key_views(k@) =~= seq!["id"@]);
        let id = match req_str(j, k) {
            Ok(v) => v,
            Err(e) => {
                return Err(e);
            },
        };
        let k: &[&str] = &["location"];
        assert(key_views(k@) =~= seq!["location"@]);
        let location = match req_str(j, k) {
            Ok(v) => v,
            Err(e) => {
                return Err(e);
            },
        };
        let k: &[&str] = &["tags"];
        assert(key_views(k@) =~= seq!["tags"@]);
        let tags = match opt_str_map(j, k) {
            Ok(v) => v,
            Err(e) => {
                return Err(e);
            },
        };
        let k: &[&str] = &["properties"];
        assert(key_views(k@) =~= seq!["properties"@]);
        let properties = match opt_shape::<ResourceGroupProperties>(j, k) {
            Ok(v) => v,
            Err(e) => {
                return Err(e);
            },
        };
        Ok(ResourceGroup { name, id, location, tags, properties })
    }

    fn to_json(&self) -> (r: JsonValue) {
        let mut es: Vec<(String, JsonValue)> = Vec::new();
        es.push((String::from_str("name"), str_json(&self.name)));
        es.push((String::from_str("id"), str_json(&self.id)));
        es.push((String::from_str("location"), str_json(&self.location)));
        es.push((String::from_str("tags"), opt_str_map_json(&self.tags)));
        es.push((String::from_str("properties"), opt_shape_json(&self.properties)));
        assert(names_of(es@) =~= resource_group_member_names());
        JsonValue::Object(es)
    }

    proof fn lemma_encoding_decodes(&self, j: JsonValue) {
        reveal_strlit("id");
        reveal_strlit("location");
        reveal_strlit("name");
        reveal_strlit("properties");
        reveal_strlit("tags");
        let es = j->Object_0@;
        let names = resource_group_member_names();
        assert("id"@.len() == 2);
        assert("location"@.len() == 8);
        assert("name"@.len() == 4);
        assert("properties"@.len() == 10);
        assert("tags"@.len() == 4);
        assert("name"@[0] == 'n');
        assert("tags"@[0] == 't');
        lemma_field_at(j, names, seq!["name"@], 0);
        lemma_req_str(self.name, es[0].1);
        lemma_field_at(j, names, seq!["id"@], 1);
        lemma_req_str(self.id, es[1].1);
        lemma_field_at(j, names, seq!["location"@], 2);
        lemma_req_str(self.location, es[2].1);
        lemma_field_at(j, names, seq!["tags"@], 3);
        lemma_opt_str_map(self.tags, es[3].1);
        lemma_field_at(j, names, seq!["properties"@], 4);
        lemma_opt_shape(self.properties, es[4].1);
    }
}

/// Resource Group properties
#[derive(Debug, Clone)]
pub struct ResourceGroupProperties {
    /// Provisioning state
    pub provisioning_state: String,
}

/// The member names of the JSON form of [`ResourceGroupProperties`], in order.
pub open spec fn resource_group_properties_member_names() -> Seq<Seq<char>> {
    Seq::empty()
        .push("provisioning_state"@)
}

impl JsonShape for ResourceGroupProperties {
    open spec fn decodable(j: JsonValue) -> bool {
        &&& j is Object
        &&& ok_req_str(field_of(j, seq!["provisioning_state"@, "provisioningState"@]))
    }

    open spec fn decodes(j: JsonValue, x: Self) -> bool {
        &&& j is Object
        &&& dec_req_str(field_of(j, seq!["provisioning_state"@, "provisioningState"@]), x.provisioning_state)
    }

    open spec fn encodes(&self, j: JsonValue) -> bool {
        &&& j is Object
        &&& names_of(j->Object_0@) == resource_group_properties_member_names()
        &&& enc_str(self.provisioning_state, j->Object_0@[0].1)
    }

    fn from_json(j: &JsonValue) -> (r: Result<Self, AzureError>) {
        if !is_object(j) {
            return Err(not_an_object());
        }
        let k: &[&str] = &["provisioning_state", "provisioningState"];
        assert(key_views(k@) =~= seq!["provisioning_state"@, "provisioningState"@]);
        let provisioning_state = match req_str(j, k) {
            Ok(v) => v,
            Err(e) => {
                return Err(e);
            },
        };
        Ok(ResourceGroupProperties { provisioning_state })
    }

    fn to_json(&self) -> (r: JsonValue) {
        let mut es: Vec<(String, JsonValue)> = Vec::new();
        es.push((String::from_str("provisioning_state"), str_json(&self.provisioning_state)));
        assert(names_of(es@) =~= resource_group_properties_member_names());
        JsonValue::Object(es)
    }

    proof fn lemma_encoding_decodes(&self, j: JsonValue) {
        reveal_strlit("provisioningState");
        reveal_strlit("provisioning_state");
        let es = j->Object_0@;
        let names = resource_group_properties_member_names();
        assert("provisioning_state"@.len() == 18);
        lemma_field_at(j, names, seq!["provisioning_state"@, "provisioningState"@], 0);
        lemma_req_str(self.provisioning_state, es[0].1);
    }
}

/// Cosmos DB Account information
#[derive(Debug, Clone)]
pub struct CosmosAccount {
    /// Account name
    pub name: String,
    /// Resource ID
    pub id: String,
    /// Account location
    pub location: String,
    /// Resource group
    pub resource_group: String,
    /// Resource type
    pub resource_type: String,
    /// Account type (SQL, MongoDB, etc.)
    pub kind: String,
    /// Provisioning status
    pub provisioning_state: String,
    /// Endpoint URI
    pub document_endpoint: String,
    /// Associated tags (name and value pairs)
    pub tags: Option<Vec<(String, String)>>,
    /// Backup policy
    pub backup_policy: Option<BackupPolicy>,
    /// Analytical storage configuration
    pub analytical_storage_configuration: Option<AnalyticalStorageConfiguration>,
    /// API properties
    pub api_properties: Option<ApiProperties>,
    /// Account capabilities
    pub capabilities: Option<Vec<Capability>>,
    /// Capacity configuration
    pub capacity: Option<CapacitySettings>,
    /// Consistency policy
    pub consistency_policy: Option<ConsistencyPolicy>,
    /// CORS settings
    pub cors: Option<Vec<CorsPolicy>>,
    /// Creation mode
    pub create_mode: Option<String>,
    /// Customer managed key status
    pub customer_managed_key_status: Option<String>,
    /// Database account offer type
    pub database_account_offer_type: Option<String>,
    /// Default identity
    pub default_identity: Option<String>,
    /// Whether key-based metadata write access is disabled
    pub disable_key_based_metadata_write_access: Option<bool>,
    /// Whether local authentication is disabled
    pub disable_local_auth: Option<bool>,
    /// Whether analytical storage is enabled
    pub enable_analytical_storage: Option<bool>,
    /// Whether automatic failover is enabled
    pub enable_automatic_failover: Option<bool>,
    /// Whether burst capacity is enabled
    pub enable_burst_capacity: Option<bool>,
    /// Whether Cassandra connector is enabled
    pub enable_cassandra_connector: Option<bool>,
    /// Whether free tier is enabled
    pub enable_free_tier: Option<bool>,
    /// Whether multiple write locations are enabled
    pub enable_multiple_write_locations: Option<bool>,
    /// Whether partition merge is enabled
    pub enable_partition_merge: Option<bool>,
    /// Whether per-region per-partition autoscale is enabled
    pub enable_per_region_per_partition_autoscale: Option<bool>,
    /// Failover policies
    pub failover_policies: Option<Vec<FailoverPolicy>>,
    /// Identity configuration
    pub identity: Option<AccountIdentity>,
    /// Instance ID
    pub instance_id: Option<String>,
    /// IP rules
    pub ip_rules: Option<Vec<IpRule>>,
    /// Whether virtual network filter is enabled
    pub is_virtual_network_filter_enabled: Option<bool>,
    /// Key Vault key URI
    pub key_vault_key_uri: Option<String>,
    /// Keys metadata
    pub keys_metadata: Option<KeysMetadata>,
    /// Account locations
    pub locations: Option<Vec<AccountLocation>>,
    /// Minimal TLS version
    pub minimal_tls_version: Option<String>,
    /// Network ACL bypass
    pub network_acl_bypass: Option<String>,
    /// Resource IDs for network ACL bypass
    pub network_acl_bypass_resource_ids: Option<Vec<String>>,
    /// Private endpoint connections
    pub private_endpoint_connections: Option<Vec<PrivateEndpointConnection>>,
    /// Public network access
    pub public_network_access: Option<String>,
    /// Read locations
    pub read_locations: Option<Vec<AccountLocation>>,
    /// Restore parameters
    pub restore_parameters: Option<RestoreParameters>,
    /// System data
    pub system_data: Option<SystemData>,
    /// Virtual network rules
    pub virtual_network_rules: Option<Vec<VirtualNetworkRule>>,
    /// Write locations
    pub write_locations: Option<Vec<AccountLocation>>,
}

/// The member names of the JSON form of [`CosmosAccount`], in order.
pub open spec fn cosmos_account_member_names() -> Seq<Seq<char>> {
    Seq::empty()
        .push("name"@)
        .push("id"@)
        .push("location"@)
        .push("resource_group"@)
        .push("type"@)
        .push("kind"@)
        .push("provisioning_state"@)
        .push("document_endpoint"@)
        .push("tags"@)
        .push("backup_policy"@)
        .push("analytical_storage_configuration"@)
        .push("api_properties"@)
        .push("capabilities"@)
        .push("capacity"@)
        .push("consistency_policy"@)
        .push("cors"@)
        .push("create_mode"@)
        .push("customer_managed_key_status"@)
        .push("database_account_offer_type"@)
        .push("default_identity"@)
        .push("disable_key_based_metadata_write_access"@)
        .push("disable_local_auth"@)
        .push("enable_analytical_storage"@)
        .push("enable_automatic_failover"@)
        .push("enable_burst_capacity"@)
        .push("enable_cassandra_connector"@)
        .push("enable_free_tier"@)
        .push("enable_multiple_write_locations"@)
        .push("enable_partition_merge"@)
        .push("enable_per_region_per_partition_autoscale"@)
        .push("failover_policies"@)
        .push("identity"@)
        .push("instance_id"@)
        .push("ip_rules"@)
        .push("is_virtual_network_filter_enabled"@)
        .push("key_vault_key_uri"@)
        .push("keys_metadata"@)
        .push("locations"@)
        .push("minimal_tls_version"@)
        .push("network_acl_bypass"@)
        .push("network_acl_bypass_resource_ids"@)
        .push("private_endpoint_connections"@)
        .push("public_network_access"@)
        .push("read_locations"@)
        .push("restore_parameters"@)
        .push("system_data"@)
        .push("virtual_network_rules"@)
        .push("write_locations"@)
}

impl JsonShape for CosmosAccount {
    open spec fn decodable(j: JsonValue) -> bool {
        &&& j is Object
        &&& ok_req_str(field_of(j, seq!["name"@]))
        &&& ok_req_str(field_of(j, seq!["id"@]))
        &&& ok_req_str(field_of(j, seq!["location"@]))
        &&& ok_req_str(field_of(j, seq!["resource_group"@, "resourceGroup"@]))
        &&& ok_req_str(field_of(j, seq!["type"@, "resourceType"@, "resource_type"@]))
        &&& ok_req_str(field_of(j, seq!["kind"@]))
        &&& ok_req_str(field_of(j, seq!["provisioning_state"@, "provisioningState"@]))
        &&& ok_req_str(field_of(j, seq!["document_endpoint"@, "documentEndpoint"@]))
        &&& ok_opt_str_map(field_of(j, seq!["tags"@]))
        &&& ok_opt_shape::<BackupPolicy>(field_of(j, seq!["backup_policy"@, "backupPolicy"@]))
        &&& ok_opt_shape::<AnalyticalStorageConfiguration>(field_of(j, seq!["analytical_storage_configuration"@, "analyticalStorageConfiguration"@]))
        &&& ok_opt_shape::<ApiProperties>(field_of(j, seq!["api_properties"@, "apiProperties"@]))
        &&& ok_opt_shapes::<Capability>(field_of(j, seq!["capabilities"@]))
        &&& ok_opt_shape::<CapacitySettings>(field_of(j, seq!["capacity"@]))
        &&& ok_opt_shape::<ConsistencyPolicy>(field_of(j, seq!["consistency_policy"@, "consistencyPolicy"@]))
        &&& ok_opt_shapes::<CorsPolicy>(field_of(j, seq!["cors"@]))
        &&& ok_opt_str(field_of(j, seq!["create_mode"@, "createMode"@]))
        &&& ok_opt_str(field_of(j, seq!["customer_managed_key_status"@, "customerManagedKeyStatus"@]))
        &&& ok_opt_str(field_of(j, seq!["database_account_offer_type"@, "databaseAccountOfferType"@]))
        &&& ok_opt_str(field_of(j, seq!["default_identity"@, "defaultIdentity"@]))
        &&& ok_opt_bool(field_of(j, seq!["disable_key_based_metadata_write_access"@, "disableKeyBasedMetadataWriteAccess"@]))
        &&& ok_opt_bool(field_of(j, seq!["disable_local_auth"@, "disableLocalAuth"@]))
        &&& ok_opt_bool(field_of(j, seq!["enable_analytical_storage"@, "enableAnalyticalStorage"@]))
        &&& ok_opt_bool(field_of(j, seq!["enable_automatic_failover"@, "enableAutomaticFailover"@]))
        &&& ok_opt_bool(field_of(j, seq!["enable_burst_capacity"@, "enableBurstCapacity"@]))
        &&& ok_opt_bool(field_of(j, seq!["enable_cassandra_connector"@, "enableCassandraConnector"@]))
        &&& ok_opt_bool(field_of(j, seq!["enable_free_tier"@, "enableFreeTier"@]))
        &&& ok_opt_bool(field_of(j, seq!["enable_multiple_write_locations"@, "enableMultipleWriteLocations"@]))
        &&& ok_opt_bool(field_of(j, seq!["enable_partition_merge"@, "enablePartitionMerge"@]))
        &&& ok_opt_bool(field_of(j, seq!["enable_per_region_per_partition_autoscale"@, "enablePerRegionPerPartitionAutoscale"@]))
        &&& ok_opt_shapes::<FailoverPolicy>(field_of(j, seq!["failover_policies"@, "failoverPolicies"@]))
        &&& ok_opt_shape::<AccountIdentity>(field_of(j, seq!["identity"@]))
        &&& ok_opt_str(field_of(j, seq!["instance_id"@, "instanceId"@]))
        &&& ok_opt_shapes::<IpRule>(field_of(j, seq!["ip_rules"@, "ipRules"@]))
        &&& ok_opt_bool(field_of(j, seq!["is_virtual_network_filter_enabled"@, "isVirtualNetworkFilterEnabled"@]))
        &&& ok_opt_str(field_of(j, seq!["key_vault_key_uri"@, "keyVaultKeyUri"@]))
        &&& ok_opt_shape::<KeysMetadata>(field_of(j, seq!["keys_metadata"@, "keysMetadata"@]))
        &&& ok_opt_shapes::<AccountLocation>(field_of(j, seq!["locations"@]))
        &&& ok_opt_str(field_of(j, seq!["minimal_tls_version"@, "minimalTlsVersion"@]))
        &&& ok_opt_str(field_of(j, seq!["network_acl_bypass"@, "networkAclBypass"@]))
        &&& ok_opt_strs(field_of(j, seq!["network_acl_bypass_resource_ids"@, "networkAclBypassResourceIds"@]))
        &&& ok_opt_shapes::<PrivateEndpointConnection>(field_of(j, seq!["private_endpoint_connections"@, "privateEndpointConnections"@]))
        &&& ok_opt_str(field_of(j, seq!["public_network_access"@, "publicNetworkAccess"@]))
        &&& ok_opt_shapes::<AccountLocation>(field_of(j, seq!["read_locations"@, "readLocations"@]))
        &&& ok_opt_shape::<RestoreParameters>(field_of(j, seq!["restore_parameters"@, "restoreParameters"@]))
        &&& ok_opt_shape::<SystemData>(field_of(j, seq!["system_data"@, "systemData"@]))
        &&& ok_opt_shapes::<VirtualNetworkRule>(field_of(j, seq!["virtual_network_rules"@, "virtualNetworkRules"@]))
        &&& ok_opt_shapes::<AccountLocation>(field_of(j, seq!["write_locations"@, "writeLocations"@]))
    }

    open spec fn decodes(j: JsonValue, x: Self) -> bool {
        &&& j is Object
        &&& dec_req_str(field_of(j, seq!["name"@]), x.name)
        &&& dec_req_str(field_of(j, seq!["id"@]), x.id)
        &&& dec_req_str(field_of(j, seq!["location"@]), x.location)
        &&& dec_req_str(field_of(j, seq!["resource_group"@, "resourceGroup"@]), x.resource_group)
        &&& dec_req_str(field_of(j, seq!["type"@, "resourceType"@, "resource_type"@]), x.resource_type)
        &&& dec_req_str(field_of(j, seq!["kind"@]), x.kind)
        &&& dec_req_str(field_of(j, seq!["provisioning_state"@, "provisioningState"@]), x.provisioning_state)
        &&& dec_req_str(field_of(j, seq!["document_endpoint"@, "documentEndpoint"@]), x.document_endpoint)
        &&& dec_opt_str_map(field_of(j, seq!["tags"@]), x.tags)
        &&& dec_opt_shape(field_of(j, seq!["backup_policy"@, "backupPolicy"@]), x.backup_policy)
        &&& dec_opt_shape(field_of(j, seq!["analytical_storage_configuration"@, "analyticalStorageConfiguration"@]), x.analytical_storage_configuration)
        &&& dec_opt_shape(field_of(j, seq!["api_properties"@, "apiProperties"@]), x.api_properties)
        &&& dec_opt_shapes(field_of(j, seq!["capabilities"@]), x.capabilities)
        &&& dec_opt_shape(field_of(j, seq!["capacity"@]), x.capacity)
        &&& dec_opt_shape(field_of(j, seq!["consistency_policy"@, "consistencyPolicy"@]), x.consistency_policy)
        &&& dec_opt_shapes(field_of(j, seq!["cors"@]), x.cors)
        &&& dec_opt_str(field_of(j, seq!["create_mode"@, "createMode"@]), x.create_mode)
        &&& dec_opt_str(field_of(j, seq!["customer_managed_key_status"@, "customerManagedKeyStatus"@]), x.customer_managed_key_status)
        &&& dec_opt_str(field_of(j, seq!["database_account_offer_type"@, "databaseAccountOfferType"@]), x.database_account_offer_type)
        &&& dec_opt_str(field_of(j, seq!["default_identity"@, "defaultIdentity"@]), x.default_identity)
        &&& dec_opt_bool(field_of(j, seq!["disable_key_based_metadata_write_access"@, "disableKeyBasedMetadataWriteAccess"@]), x.disable_key_based_metadata_write_access)
        &&& dec_opt_bool(field_of(j, seq!["disable_local_auth"@, "disableLocalAuth"@]), x.disable_local_auth)
        &&& dec_opt_bool(field_of(j, seq!["enable_analytical_storage"@, "enableAnalyticalStorage"@]), x.enable_analytical_storage)
        &&& dec_opt_bool(field_of(j, seq!["enable_automatic_failover"@, "enableAutomaticFailover"@]), x.enable_automatic_failover)
        &&& dec_opt_bool(field_of(j, seq!["enable_burst_capacity"@, "enableBurstCapacity"@]), x.enable_burst_capacity)
        &&& dec_opt_bool(field_of(j, seq!["enable_cassandra_connector"@, "enableCassandraConnector"@]), x.enable_cassandra_connector)
        &&& dec_opt_bool(field_of(j, seq!["enable_free_tier"@, "enableFreeTier"@]), x.enable_free_tier)
        &&& dec_opt_bool(field_of(j, seq!["enable_multiple_write_locations"@, "enableMultipleWriteLocations"@]), x.enable_multiple_write_locations)
        &&& dec_opt_bool(field_of(j, seq!["enable_partition_merge"@, "enablePartitionMerge"@]), x.enable_partition_merge)
        &&& dec_opt_bool(field_of(j, seq!["enable_per_region_per_partition_autoscale"@, "enablePerRegionPerPartitionAutoscale"@]), x.enable_per_region_per_partition_autoscale)
        &&& dec_opt_shapes(field_of(j, seq!["failover_policies"@, "failoverPolicies"@]), x.failover_policies)
        &&& dec_opt_shape(field_of(j, seq!["identity"@]), x.identity)
        &&& dec_opt_str(field_of(j, seq!["instance_id"@, "instanceId"@]), x.instance_id)
        &&& dec_opt_shapes(field_of(j, seq!["ip_rules"@, "ipRules"@]), x.ip_rules)
        &&& dec_opt_bool(field_of(j, seq!["is_virtual_network_filter_enabled"@, "isVirtualNetworkFilterEnabled"@]), x.is_virtual_network_filter_enabled)
        &&& dec_opt_str(field_of(j, seq!["key_vault_key_uri"@, "keyVaultKeyUri"@]), x.key_vault_key_uri)
        &&& dec_opt_shape(field_of(j, seq!["keys_metadata"@, "keysMetadata"@]), x.keys_metadata)
        &&& dec_opt_shapes(field_of(j, seq!["locations"@]), x.locations)
        &&& dec_opt_str(field_of(j, seq!["minimal_tls_version"@, "minimalTlsVersion"@]), x.minimal_tls_version)
        &&& dec_opt_str(field_of(j, seq!["network_acl_bypass"@, "networkAclBypass"@]), x.network_acl_bypass)
        &&& dec_opt_strs(field_of(j, seq!["network_acl_bypass_resource_ids"@, "networkAclBypassResourceIds"@]), x.network_acl_bypass_resource_ids)
        &&& dec_opt_shapes(field_of(j, seq!["private_endpoint_connections"@, "privateEndpointConnections"@]), x.private_endpoint_connections)
        &&& dec_opt_str(field_of(j, seq!["public_network_access"@, "publicNetworkAccess"@]), x.public_network_access)
        &&& dec_opt_shapes(field_of(j, seq!["read_locations"@, "readLocations"@]), x.read_locations)
        &&& dec_opt_shape(field_of(j, seq!["restore_parameters"@, "restoreParameters"@]), x.restore_parameters)
        &&& dec_opt_shape(field_of(j, seq!["system_data"@, "systemData"@]), x.system_data)
        &&& dec_opt_shapes(field_of(j, seq!["virtual_network_rules"@, "virtualNetworkRules"@]), x.virtual_network_rules)
        &&& dec_opt_shapes(field_of(j, seq!["write_locations"@, "writeLocations"@]), x.write_locations)
    }

    open spec fn encodes(&self, j: JsonValue) -> bool {
        &&& j is Object
        &&& names_of(j->Object_0@) == cosmos_account_member_names()
        &&& enc_str(self.name, j->Object_0@[0].1)
        &&& enc_str(self.id, j->Object_0@[1].1)
        &&& enc_str(self.location, j->Object_0@[2].1)
        &&& enc_str(self.resource_group, j->Object_0@[3].1)
        &&& enc_str(self.resource_type, j->Object_0@[4].1)
        &&& enc_str(self.kind, j->Object_0@[5].1)
        &&& enc_str(self.provisioning_state, j->Object_0@[6].1)
        &&& enc_str(self.document_endpoint, j->Object_0@[7].1)
        &&& enc_opt_str_map(self.tags, j->Object_0@[8].1)
        &&& enc_opt_shape(self.backup_policy, j->Object_0@[9].1)
        &&& enc_opt_shape(self.analytical_storage_configuration, j->Object_0@[10].1)
        &&& enc_opt_shape(self.api_properties, j->Object_0@[11].1)
        &&& enc_opt_shapes(self.capabilities, j->Object_0@[12].1)
        &&& enc_opt_shape(self.capacity, j->Object_0@[13].1)
        &&& enc_opt_shape(self.consistency_policy, j->Object_0@[14].1)
        &&& enc_opt_shapes(self.cors, j->Object_0@[15].1)
        &&& enc_opt_str(self.create_mode, j->Object_0@[16].1)
        &&& enc_opt_str(self.customer_managed_key_status, j->Object_0@[17].1)
        &&& enc_opt_str(self.database_account_offer_type, j->Object_0@[18].1)
        &&& enc_opt_str(self.default_identity, j->Object_0@[19].1)
        &&& enc_opt_bool(self.disable_key_based_metadata_write_access, j->Object_0@[20].1)
        &&& enc_opt_bool(self.disable_local_auth, j->Object_0@[21].1)
        &&& enc_opt_bool(self.enable_analytical_storage, j->Object_0@[22].1)
        &&& enc_opt_bool(self.enable_automatic_failover, j->Object_0@[23].1)
        &&& enc_opt_bool(self.enable_burst_capacity, j->Object_0@[24].1)
        &&& enc_opt_bool(self.enable_cassandra_connector, j->Object_0@[25].1)
        &&& enc_opt_bool(self.enable_free_tier, j->Object_0@[26].1)
        &&& enc_opt_bool(self.enable_multiple_write_locations, j->Object_0@[27].1)
        &&& enc_opt_bool(self.enable_partition_merge, j->Object_0@[28].1)
        &&& enc_opt_bool(self.enable_per_region_per_partition_autoscale, j->Object_0@[29].1)
        &&& enc_opt_shapes(self.failover_policies, j->Object_0@[30].1)
        &&& enc_opt_shape(self.identity, j->Object_0@[31].1)
        &&& enc_opt_str(self.instance_id, j->Object_0@[32].1)
        &&& enc_opt_shapes(self.ip_rules, j->Object_0@[33].1)
        &&& enc_opt_bool(self.is_virtual_network_filter_enabled, j->Object_0@[34].1)
        &&& enc_opt_str(self.key_vault_key_uri, j->Object_0@[35].1)
        &&& enc_opt_shape(self.keys_metadata, j->Object_0@[36].1)
        &&& enc_opt_shapes(self.locations, j->Object_0@[37].1)
        &&& enc_opt_str(self.minimal_tls_version, j->Object_0@[38].1)
        &&& enc_opt_str(self.network_acl_bypass, j->Object_0@[39].1)
        &&& enc_opt_strs(self.network_acl_bypass_resource_ids, j->Object_0@[40].1)
        &&& enc_opt_shapes(self.private_endpoint_connections, j->Object_0@[41].1)
        &&& enc_opt_str(self.public_network_access, j->Object_0@[42].1)
        &&& enc_opt_shapes(self.read_locations, j->Object_0@[43].1)
        &&& enc_opt_shape(self.restore_parameters, j->Object_0@[44].1)
        &&& enc_opt_shape(self.system_data, j->Object_0@[45].1)
        &&& enc_opt_shapes(self.virtual_network_rules, j->Object_0@[46].1)
        &&& enc_opt_shapes(self.write_locations, j->Object_0@[47].1)
    }

    fn from_json(j: &JsonValue) -> (r: Result<Self, AzureError>) {
        if !is_object(j) {
            return Err(not_an_object());
        }
        let k: &[&str] = &["name"];
        assert(key_views(k@) =~= seq!["name"@]);
        let name = match req_str(j, k) {
            Ok(v) => v,
            Err(e) => {
                return Err(e);
            },
        };
        let k: &[&str] = &["id"];
        assert(key_views(k@) =~= seq!["id"@]);
        let id = match req_str(j, k) {
            Ok(v) => v,
            Err(e) => {
                return Err(e);
            },
        };
        let k: &[&str] = &["location"];
        assert(key_views(k@) =~= seq!["location"@]);
        let location = match req_str(j, k) {
            Ok(v) => v,
            Err(e) => {
                return Err(e);
            },
        };
        let k: &[&str] = &["resource_group", "resourceGroup"];
        assert(key_views(k@) =~= seq!["resource_group"@, "resourceGroup"@]);
        let resource_group = match req_str(j, k) {
            Ok(v) => v,
            Err(e) => {
                return Err(e);
            },
        };
        let k: &[&str] = &["type", "resourceType", "resource_type"];
        assert(key_views(k@) =~= seq!["type"@, "resourceType"@, "resource_type"@]);
        let resource_type = match req_str(j, k) {
            Ok(v) => v,
            Err(e) => {
                return Err(e);
            },
        };
        let k: &[&str] = &["kind"];
        assert(key_views(k@) =~= seq!["kind"@]);
        let kind = match req_str(j, k) {
            Ok(v) => v,
            Err(e) => {
                return Err(e);
            },
        };
        let k: &[&str] = &["provisioning_state", "provisioningState"];
        assert(key_views(k@) =~= seq!["provisioning_state"@, "provisioningState"@]);
        let provisioning_state = match req_str(j, k) {
            Ok(v) => v,
            Err(e) => {
                return Err(e);
            },
        };
        let k: &[&str] = &["document_endpoint", "documentEndpoint"];
        assert(key_views(k@) =~= seq!["document_endpoint"@, "documentEndpoint"@]);
        let document_endpoint = match req_str(j, k) {
            Ok(v) => v,
            Err(e) => {
                return Err(e);
            },
        };
        let k: &[&str] = &["tags"];
        assert(key_views(k@) =~= seq!["tags"@]);
        let tags = match opt_str_map(j, k) {
            Ok(v) => v,
            Err(e) => {
                return Err(e);
            },
        };
        let k: &[&str] = &["backup_policy", "backupPolicy"];
        assert(key_views(k@) =~= seq!["backup_policy"@, "backupPolicy"@]);
        let backup_policy = match opt_shape::<BackupPolicy>(j, k) {
            Ok(v) => v,
            Err(e) => {
                return Err(e);
            },
        };
        let k: &[&str] = &["analytical_storage_configuration", "analyticalStorageConfiguration"];
        assert(key_views(k@) =~= seq!["analytical_storage_configuration"@, "analyticalStorageConfiguration"@]);
        let analytical_storage_configuration = match opt_shape::<AnalyticalStorageConfiguration>(j, k) {
            Ok(v) => v,
            Err(e) => {
                return Err(e);
            },
        };
        let k: &[&str] = &["api_properties", "apiProperties"];
        assert(key_views(k@) =~= seq!["api_properties"@, "apiProperties"@]);
        let api_properties = match opt_shape::<ApiProperties>(j, k) {
            Ok(v) => v,
            Err(e) => {
                return Err(e);
            },
        };
        let k: &[&str] = &["capabilities"];
        assert(key_views(k@) =~= seq!["capabilities"@]);
        let capabilities = match opt_shapes::<Capability>(j, k) {
            Ok(v) => v,
            Err(e) => {
                return Err(e);
            },
        };
        let k: &[&str] = &["capacity"];
        assert(key_views(k@) =~= seq!["capacity"@]);
        let capacity = match opt_shape::<CapacitySettings>(j, k) {
            Ok(v) => v,
            Err(e) => {
                return Err(e);
            },
        };
        let k: &[&str] = &["consistency_policy", "consistencyPolicy"];
        assert(key_views(k@) =~= seq!["consistency_policy"@, "consistencyPolicy"@]);
        let consistency_policy = match opt_shape::<ConsistencyPolicy>(j, k) {
            Ok(v) => v,
            Err(e) => {
                return Err(e);
            },
        };
        let k: &[&str] = &["cors"];
        assert(key_views(k@) =~= seq!["cors"@]);
        let cors = match opt_shapes::<CorsPolicy>(j, k) {
            Ok(v) => v,
            Err(e) => {
                return Err(e);
            },
        };
        let k: &[&str] = &["create_mode", "createMode"];
        assert(key_views(k@) =~= seq!["create_mode"@, "createMode"@]);
        let create_mode = match opt_str(j, k) {
            Ok(v) => v,
            Err(e) => {
                return Err(e);
            },
        };
        let k: &[&str] = &["customer_managed_key_status", "customerManagedKeyStatus"];
        assert(key_views(k@) =~= seq!["customer_managed_key_status"@, "customerManagedKeyStatus"@]);
        let customer_managed_key_status = match opt_str(j, k) {
            Ok(v) => v,
            Err(e) => {
                return Err(e);
            },
        };
        let k: &[&str] = &["database_account_offer_type", "databaseAccountOfferType"];
        assert(key_views(k@) =~= seq!["database_account_offer_type"@, "databaseAccountOfferType"@]);
        let database_account_offer_type = match opt_str(j, k) {
            Ok(v) => v,
            Err(e) => {
                return Err(e);
            },
        };
        let k: &[&str] = &["default_identity", "defaultIdentity"];
        assert(key_views(k@) =~= seq!["default_identity"@, "defaultIdentity"@]);
        let default_identity = match opt_str(j, k) {
            Ok(v) => v,
            Err(e) => {
                return Err(e);
            },
        };
        let k: &[&str] = &["disable_key_based_metadata_write_access", "disableKeyBasedMetadataWriteAccess"];
        assert(key_views(k@) =~= seq!["disable_key_based_metadata_write_access"@, "disableKeyBasedMetadataWriteAccess"@]);
        let disable_key_based_metadata_write_access = match opt_bool(j, k) {
            Ok(v) => v,
            Err(e) => {
                return Err(e);
            },
        };
        let k: &[&str] = &["disable_local_auth", "disableLocalAuth"];
        assert(key_views(k@) =~= seq!["disable_local_auth"@, "disableLocalAuth"@]);
        let disable_local_auth = match opt_bool(j, k) {
            Ok(v) => v,
            Err(e) => {
                return Err(e);
            },
        };
        let k: &[&str] = &["enable_analytical_storage", "enableAnalyticalStorage"];
        assert(key_views(k@) =~= seq!["enable_analytical_storage"@, "enableAnalyticalStorage"@]);
        let enable_analytical_storage = match opt_bool(j, k) {
            Ok(v) => v,
            Err(e) => {
                return Err(e);
            },
        };
        let k: &[&str] = &["enable_automatic_failover", "enableAutomaticFailover"];
        assert(key_views(k@) =~= seq!["enable_automatic_failover"@, "enableAutomaticFailover"@]);
        let enable_automatic_failover = match opt_bool(j, k) {
            Ok(v) => v,
            Err(e) => {
                return Err(e);
            },
        };
        let k: &[&str] = &["enable_burst_capacity", "enableBurstCapacity"];
        assert(key_views(k@) =~= seq!["enable_burst_capacity"@, "enableBurstCapacity"@]);
        let enable_burst_capacity = match opt_bool(j, k) {
            Ok(v) => v,
            Err(e) => {
                return Err(e);
            },
        };
        let k: &[&str] = &["enable_cassandra_connector", "enableCassandraConnector"];
        assert(key_views(k@) =~= seq!["enable_cassandra_connector"@, "enableCassandraConnector"@]);
        let enable_cassandra_connector = match opt_bool(j, k) {
            Ok(v) => v,
            Err(e) => {
                return Err(e);
            },
        };
        let k: &[&str] = &["enable_free_tier", "enableFreeTier"];
        assert(key_views(k@) =~= seq!["enable_free_tier"@, "enableFreeTier"@]);
        let enable_free_tier = match opt_bool(j, k) {
            Ok(v) => v,
            Err(e) => {
                return Err(e);
            },
        };
        let k: &[&str] = &["enable_multiple_write_locations", "enableMultipleWriteLocations"];
        assert(key_views(k@) =~= seq!["enable_multiple_write_locations"@, "enableMultipleWriteLocations"@]);
        let enable_multiple_write_locations = match opt_bool(j, k) {
            Ok(v) => v,
            Err(e) => {
                return Err(e);
            },
        };
        let k: &[&str] = &["enable_partition_merge", "enablePartitionMerge"];
        assert(key_views(k@) =~= seq!["enable_partition_merge"@, "enablePartitionMerge"@]);
        let enable_partition_merge = match opt_bool(j, k) {
            Ok(v) => v,
            Err(e) => {
                return Err(e);
            },
        };
        let k: &[&str] = &["enable_per_region_per_partition_autoscale", "enablePerRegionPerPartitionAutoscale"];
        assert(key_views(k@) =~= seq!["enable_per_region_per_partition_autoscale"@, "enablePerRegionPerPartitionAutoscale"@]);
        let enable_per_region_per_partition_autoscale = match opt_bool(j, k) {
            Ok(v) => v,
            Err(e) => {
                return Err(e);
            },
        };
        let k: &[&str] = &["failover_policies", "failoverPolicies"];
        assert(key_views(k@) =~= seq!["failover_policies"@, "failoverPolicies"@]);
        let failover_policies = match opt_shapes::<FailoverPolicy>(j, k) {
            Ok(v) => v,
            Err(e) => {
                return Err(e);
            },
        };
        let k: &[&str] = &["identity"];
        assert(key_views(k@) =~= seq!["identity"@]);
        let identity = match opt_shape::<AccountIdentity>(j, k) {
            Ok(v) => v,
            Err(e) => {
                return Err(e);
            },
        };
        let k: &[&str] = &["instance_id", "instanceId"];
        assert(key_views(k@) =~= seq!["instance_id"@, "instanceId"@]);
        let instance_id = match opt_str(j, k) {
            Ok(v) => v,
            Err(e) => {
                return Err(e);
            },
        };
        let k: &[&str] = &["ip_rules", "ipRules"];
        assert(key_views(k@) =~= seq!["ip_rules"@, "ipRules"@]);
        let ip_rules = match opt_shapes::<IpRule>(j, k) {
            Ok(v) => v,
            Err(e) => {
                return Err(e);
            },
        };
        let k: &[&str] = &["is_virtual_network_filter_enabled", "isVirtualNetworkFilterEnabled"];
        assert(key_views(k@) =~= seq!["is_virtual_network_filter_enabled"@, "isVirtualNetworkFilterEnabled"@]);
        let is_virtual_network_filter_enabled = match opt_bool(j, k) {
            Ok(v) => v,
            Err(e) => {
                return Err(e);
            },
        };
        let k: &[&str] = &["key_vault_key_uri", "keyVaultKeyUri"];
        assert(key_views(k@) =~= seq!["key_vault_key_uri"@, "keyVaultKeyUri"@]);
        let key_vault_key_uri = match opt_str(j, k) {
            Ok(v) => v,
            Err(e) => {
                return Err(e);
            },
        };
        let k: &[&str] = &["keys_metadata", "keysMetadata"];
        assert(key_views(k@) =~= seq!["keys_metadata"@, "keysMetadata"@]);
        let keys_metadata = match opt_shape::<KeysMetadata>(j, k) {
            Ok(v) => v,
            Err(e) => {
                return Err(e);
            },
        };
        let k: &[&str] = &["locations"];
        assert(key_views(k@) =~= seq!["locations"@]);
        let locations = match opt_shapes::<AccountLocation>(j, k) {
            Ok(v) => v,
            Err(e) => {
                return Err(e);
            },
        };
        let k: &[&str] = &["minimal_tls_version", "minimalTlsVersion"];
        assert(key_views(k@) =~= seq!["minimal_tls_version"@, "minimalTlsVersion"@]);
        let minimal_tls_version = match opt_str(j, k) {
            Ok(v) => v,
            Err(e) => {
                return Err(e);
            },
        };
        let k: &[&str] = &["network_acl_bypass", "networkAclBypass"];
        assert(key_views(k@) =~= seq!["network_acl_bypass"@, "networkAclBypass"@]);
        let network_acl_bypass = match opt_str(j, k) {
            Ok(v) => v,
            Err(e) => {
                return Err(e);
            },
        };
        let k: &[&str] = &["network_acl_bypass_resource_ids", "networkAclBypassResourceIds"];
        assert(key_views(k@) =~= seq!["network_acl_bypass_resource_ids"@, "networkAclBypassResourceIds"@]);
        let network_acl_bypass_resource_ids = match opt_strs(j, k) {
            Ok(v) => v,
            Err(e) => {
                return Err(e);
            },
        };
        let k: &[&str] = &["private_endpoint_connections", "privateEndpointConnections"];
        assert(key_views(k@) =~= seq!["private_endpoint_connections"@, "privateEndpointConnections"@]);
        let private_endpoint_connections = match opt_shapes::<PrivateEndpointConnection>(j, k) {
            Ok(v) => v,
            Err(e) => {
                return Err(e);
            },
        };
        let k: &[&str] = &["public_network_access", "publicNetworkAccess"];
        assert(key_views(k@) =~= seq!["public_network_access"@, "publicNetworkAccess"@]);
        let public_network_access = match opt_str(j, k) {
            Ok(v) => v,
            Err(e) => {
                return Err(e);
            },
        };
        let k: &[&str] = &["read_locations", "readLocations"];
        assert(key_views(k@) =~= seq!["read_locations"@, "readLocations"@]);
        let read_locations = match opt_shapes::<AccountLocation>(j, k) {
            Ok(v) => v,
            Err(e) => {
                return Err(e);
            },
        };
        let k: &[&str] = &["restore_parameters", "restoreParameters"];
        assert(key_views(k@) =~= seq!["restore_parameters"@, "restoreParameters"@]);
        let restore_parameters = match opt_shape::<RestoreParameters>(j, k) {
            Ok(v) => v,
            Err(e) => {
                return Err(e);
            },
        };
        let k: &[&str] = &["system_data", "systemData"];
        assert(key_views(k@) =~= seq!["system_data"@, "systemData"@]);
        let system_data = match opt_shape::<SystemData>(j, k) {
            Ok(v) => v,
            Err(e) => {
                return Err(e);
            },
        };
        let k: &[&str] = &["virtual_network_rules", "virtualNetworkRules"];
        assert(key_views(k@) =~= seq!["virtual_network_rules"@, "virtualNetworkRules"@]);
        let virtual_network_rules = match opt_shapes::<VirtualNetworkRule>(j, k) {
            Ok(v) => v,
            Err(e) => {
                return Err(e);
            },
        };
        let k: &[&str] = &["write_locations", "writeLocations"];
        assert(key_views(k@) =~= seq!["write_locations"@, "writeLocations"@]);
        let write_locations = match opt_shapes::<AccountLocation>(j, k) {
            Ok(v) => v,
            Err(e) => {
                return Err(e);
            },
        };
        Ok(CosmosAccount {
            name,
            id,
            location,
            resource_group,
            resource_type,
            kind,
            provisioning_state,
            document_endpoint,
            tags,
            backup_policy,
            analytical_storage_configuration,
            api_properties,
            capabilities,
            capacity,
            consistency_policy,
            cors,
            create_mode,
            customer_managed_key_status,
            database_account_offer_type,
            default_identity,
            disable_key_based_metadata_write_access,
            disable_local_auth,
            enable_analytical_storage,
            enable_automatic_failover,
            enable_burst_capacity,
            enable_cassandra_connector,
            enable_free_tier,
            enable_multiple_write_locations,
            enable_partition_merge,
            enable_per_region_per_partition_autoscale,
            failover_policies,
            identity,
            instance_id,
            ip_rules,
            is_virtual_network_filter_enabled,
            key_vault_key_uri,
            keys_metadata,
            locations,
            minimal_tls_version,
            network_acl_bypass,
            network_acl_bypass_resource_ids,
            private_endpoint_connections,
            public_network_access,
            read_locations,
            restore_parameters,
            system_data,
            virtual_network_rules,
            write_locations,
        })
    }

    fn to_json(&self) -> (r: JsonValue) {
        let mut es: Vec<(String, JsonValue)> = Vec::new();
        es.push((String::from_str("name"), str_json(&self.name)));
        es.push((String::from_str("id"), str_json(&self.id)));
        es.push((String::from_str("location"), str_json(&self.location)));
        es.push((String::from_str("resource_group"), str_json(&self.resource_group)));
        es.push((String::from_str("type"), str_json(&self.resource_type)));
        es.push((String::from_str("kind"), str_json(&self.kind)));
        es.push((String::from_str("provisioning_state"), str_json(&self.provisioning_state)));
        es.push((String::from_str("document_endpoint"), str_json(&self.document_endpoint)));
        es.push((String::from_str("tags"), opt_str_map_json(&self.tags)));
        es.push((String::from_str("backup_policy"), opt_shape_json(&self.backup_policy)));
        es.push((String::from_str("analytical_storage_configuration"), opt_shape_json(&self.analytical_storage_configuration)));
        es.push((String::from_str("api_properties"), opt_shape_json(&self.api_properties)));
        es.push((String::from_str("capabilities"), opt_shapes_json(&self.capabilities)));
        es.push((String::from_str("capacity"), opt_shape_json(&self.capacity)));
        es.push((String::from_str("consistency_policy"), opt_shape_json(&self.consistency_policy)));
        es.push((String::from_str("cors"), opt_shapes_json(&self.cors)));
        es.push((String::from_str("create_mode"), opt_str_json(&self.create_mode)));
        es.push((String::from_str("customer_managed_key_status"), opt_str_json(&self.customer_managed_key_status)));
        es.push((String::from_str("database_account_offer_type"), opt_str_json(&self.database_account_offer_type)));
        es.push((String::from_str("default_identity"), opt_str_json(&self.default_identity)));
        es.push((String::from_str("disable_key_based_metadata_write_access"), opt_bool_json(&self.disable_key_based_metadata_write_access)));
        es.push((String::from_str("disable_local_auth"), opt_bool_json(&self.disable_local_auth)));
        es.push((String::from_str("enable_analytical_storage"), opt_bool_json(&self.enable_analytical_storage)));
        es.push((String::from_str("enable_automatic_failover"), opt_bool_json(&self.enable_automatic_failover)));
        es.push((String::from_str("enable_burst_capacity"), opt_bool_json(&self.enable_burst_capacity)));
        es.push((String::from_str("enable_cassandra_connector"), opt_bool_json(&self.enable_cassandra_connector)));
        es.push((String::from_str("enable_free_tier"), opt_bool_json(&self.enable_free_tier)));
        es.push((String::from_str("enable_multiple_write_locations"), opt_bool_json(&self.enable_multiple_write_locations)));
        es.push((String::from_str("enable_partition_merge"), opt_bool_json(&self.enable_partition_merge)));
        es.push((String::from_str("enable_per_region_per_partition_autoscale"), opt_bool_json(&self.enable_per_region_per_partition_autoscale)));
        es.push((String::from_str("failover_policies"), opt_shapes_json(&self.failover_policies)));
        es.push((String::from_str("identity"), opt_shape_json(&self.identity)));
        es.push((String::from_str("instance_id"), opt_str_json(&self.instance_id)));
        es.push((String::from_str("ip_rules"), opt_shapes_json(&self.ip_rules)));
        es.push((String::from_str("is_virtual_network_filter_enabled"), opt_bool_json(&self.is_virtual_network_filter_enabled)));
        es.push((String::from_str("key_vault_key_uri"), opt_str_json(&self.key_vault_key_uri)));
        es.push((String::from_str("keys_metadata"), opt_shape_json(&self.keys_metadata)));
        es.push((String::from_str("locations"), opt_shapes_json(&self.locations)));
        es.push((String::from_str("minimal_tls_version"), opt_str_json(&self.minimal_tls_version)));
        es.push((String::from_str("network_acl_bypass"), opt_str_json(&self.network_acl_bypass)));
        es.push((String::from_str("network_acl_bypass_resource_ids"), opt_strs_json(&self.network_acl_bypass_resource_ids)));
        es.push((String::from_str("private_endpoint_connections"), opt_shapes_json(&self.private_endpoint_connections)));
        es.push((String::from_str("public_network_access"), opt_str_json(&self.public_network_access)));
        es.push((String::from_str("read_locations"), opt_shapes_json(&self.read_locations)));
        es.push((String::from_str("restore_parameters"), opt_shape_json(&self.restore_parameters)));
        es.push((String::from_str("system_data"), opt_shape_json(&self.system_data)));
        es.push((String::from_str("virtual_network_rules"), opt_shapes_json(&self.virtual_network_rules)));
        es.push((String::from_str("write_locations"), opt_shapes_json(&self.write_locations)));
        assert(names_of(es@) =~= cosmos_account_member_names());
        JsonValue::Object(es)
    }

    proof fn lemma_encoding_decodes(&self, j: JsonValue) {
        reveal_strlit("analyticalStorageConfiguration");
        reveal_strlit("analytical_storage_configuration");
        reveal_strlit("apiProperties");
        reveal_strlit("api_properties");
        reveal_strlit("backupPolicy");
        reveal_strlit("backup_policy");
        reveal_strlit("capabilities");
        reveal_strlit("capacity");
        reveal_strlit("consistencyPolicy");
        reveal_strlit("consistency_policy");
        reveal_strlit("cors");
        reveal_strlit("createMode");
        reveal_strlit("create_mode");
        reveal_strlit("customerManagedKeyStatus");
        reveal_strlit("customer_managed_key_status");
        reveal_strlit("databaseAccountOfferType");
        reveal_strlit("database_account_offer_type");
        reveal_strlit("defaultIdentity");
        reveal_strlit("default_identity");
        reveal_strlit("disableKeyBasedMetadataWriteAccess");
        reveal_strlit("disableLocalAuth");
        reveal_strlit("disable_key_based_metadata_write_access");
        reveal_strlit("disable_local_auth");
        reveal_strlit("documentEndpoint");
        reveal_strlit("document_endpoint");
        reveal_strlit("enableAnalyticalStorage");
        reveal_strlit("enableAutomaticFailover");
        reveal_strlit("enableBurstCapacity");
        reveal_strlit("enableCassandraConnector");
        reveal_strlit("enableFreeTier");
        reveal_strlit("enableMultipleWriteLocations");
        reveal_strlit("enablePartitionMerge");
        reveal_strlit("enablePerRegionPerPartitionAutoscale");
        reveal_strlit("enable_analytical_storage");
        reveal_strlit("enable_automatic_failover");
        reveal_strlit("enable_burst_capacity");
        reveal_strlit("enable_cassandra_connector");
        reveal_strlit("enable_free_tier");
        reveal_strlit("enable_multiple_write_locations");
        reveal_strlit("enable_partition_merge");
        reveal_strlit("enable_per_region_per_partition_autoscale");
        reveal_strlit("failoverPolicies");
        reveal_strlit("failover_policies");
        reveal_strlit("id");
        reveal_strlit("identity");
        reveal_strlit("instanceId");
        reveal_strlit("instance_id");
        reveal_strlit("ipRules");
        reveal_strlit("ip_rules");
        reveal_strlit("isVirtualNetworkFilterEnabled");
        reveal_strlit("is_virtual_network_filter_enabled");
        reveal_strlit("keyVaultKeyUri");
        reveal_strlit("key_vault_key_uri");
        reveal_strlit("keysMetadata");
        reveal_strlit("keys_metadata");
        reveal_strlit("kind");
        reveal_strlit("location");
        reveal_strlit("locations");
        reveal_strlit("minimalTlsVersion");
        reveal_strlit("minimal_tls_version");
        reveal_strlit("name");
        reveal_strlit("networkAclBypass");
        reveal_strlit("networkAclBypassResourceIds");
        reveal_strlit("network_acl_bypass");
        reveal_strlit("network_acl_bypass_resource_ids");
        reveal_strlit("privateEndpointConnections");
        reveal_strlit("private_endpoint_connections");
        reveal_strlit("provisioningState");
        reveal_strlit("provisioning_state");
        reveal_strlit("publicNetworkAccess");
        reveal_strlit("public_network_access");
        reveal_strlit("readLocations");
        reveal_strlit("read_locations");
        reveal_strlit("resourceGroup");
        reveal_strlit("resourceType");
        reveal_strlit("resource_group");
        reveal_strlit("resource_type");
        reveal_strlit("restoreParameters");
        reveal_strlit("restore_parameters");
        reveal_strlit("systemData");
        reveal_strlit("system_data");
        reveal_strlit("tags");
        reveal_strlit("type");
        reveal_strlit("virtualNetworkRules");
        reveal_strlit("virtual_network_rules");
        reveal_strlit("writeLocations");
        reveal_strlit("write_locations");
        let es = j->Object_0@;
        let names = cosmos_account_member_names();
        assert("analytical_storage_configuration"@.len() == 32);
        assert("api_properties"@.len() == 14);
        assert("backup_policy"@.len() == 13);
        assert("capabilities"@.len() == 12);
        assert("capacity"@.len() == 8);
        assert("consistency_policy"@.len() == 18);
        assert("cors"@.len() == 4);
        assert("create_mode"@.len() == 11);
        assert("customer_managed_key_status"@.len() == 27);
        assert("database_account_offer_type"@.len() == 27);
        assert("default_identity"@.len() == 16);
        assert("disable_key_based_metadata_write_access"@.len() == 39);
        assert("disable_local_auth"@.len() == 18);
        assert("document_endpoint"@.len() == 17);
        assert("enable_analytical_storage"@.len() == 25);
        assert("enable_automatic_failover"@.len() == 25);
        assert("enable_burst_capacity"@.len() == 21);
        assert("enable_cassandra_connector"@.len() == 26);
        assert("enable_free_tier"@.len() == 16);
        assert("enable_multiple_write_locations"@.len() == 31);
        assert("enable_partition_merge"@.len() == 22);
        assert("enable_per_region_per_partition_autoscale"@.len() == 41);
        assert("failover_policies"@.len() == 17);
        assert("id"@.len() == 2);
        assert("identity"@.len() == 8);
        assert("instance_id"@.len() == 11);
        assert("ip_rules"@.len() == 8);
        assert("is_virtual_network_filter_enabled"@.len() == 33);
        assert("key_vault_key_uri"@.len() == 17);
        assert("keys_metadata"@.len() == 13);
        assert("kind"@.len() == 4);
        assert("location"@.len() == 8);
        assert("locations"@.len() == 9);
        assert("minimal_tls_version"@.len() == 19);
        assert("name"@.len() == 4);
        assert("network_acl_bypass"@.len() == 18);
        assert("network_acl_bypass_resource_ids"@.len() == 31);
        assert("private_endpoint_connections"@.len() == 28);
        assert("provisioning_state"@.len() == 18);
        assert("public_network_access"@.len() == 21);
        assert("read_locations"@.len() == 14);
        assert("resource_group"@.len() == 14);
        assert("restore_parameters"@.len() == 18);
        assert("system_data"@.len() == 11);
        assert("tags"@.len() == 4);
        assert("type"@.len() == 4);
        assert("virtual_network_rules"@.len() == 21);
        assert("write_locations"@.len() == 15);
        assert("name"@[0] == 'n');
        assert("type"@[0] == 't');
        assert("kind"@[0] == 'k');
        assert("tags"@[0] == 't');
        assert("cors"@[0] == 'c');
        assert("location"@[0] == 'l');
        assert("capacity"@[0] == 'c');
        assert("identity"@[0] == 'i');
        assert("ip_rules"@[0] == 'i');
        assert("resource_group"@[0] == 'r');
        assert("api_properties"@[0] == 'a');
        assert("resource_group"@[2] == 's');
        assert("read_locations"@[2] == 'a');
        assert("type"@[1] == 'y');
        assert("tags"@[1] == 'a');
        assert("provisioning_state"@[0] == 'p');
        assert("consistency_policy"@[0] == 'c');
        assert("disable_local_auth"@[0] == 'd');
        assert("network_acl_bypass"@[0] == 'n');
        assert("restore_parameters"@[0] == 'r');
        assert("document_endpoint"@[0] == 'd');
        assert("failover_policies"@[0] == 'f');
        assert("key_vault_key_uri"@[0] == 'k');
        assert("backup_policy"@[0] == 'b');
        assert("keys_metadata"@[0] == 'k');
        assert("read_locations"@[0] == 'r');
        assert("create_mode"@[0] == 'c');
        assert("instance_id"@[0] == 'i');
        assert("system_data"@[0] == 's');
        assert("customer_managed_key_status"@[0] == 'c');
        assert("database_account_offer_type"@[0] == 'd');
        assert("default_identity"@[0] == 'd');
        assert("enable_free_tier"@[0] == 'e');
        assert("enable_analytical_storage"@[8] == 'n');
        assert("enable_automatic_failover"@[8] == 'u');
        assert("enable_burst_capacity"@[0] == 'e');
        assert("public_network_access"@[0] == 'p');
        assert("virtual_network_rules"@[0] == 'v');
        assert("enable_multiple_write_locations"@[0] == 'e');
        assert("network_acl_bypass_resource_ids"@[0] == 'n');
        assert("identity"@[1] == 'd');
        assert("ip_rules"@[1] == 'p');
        lemma_cosmos_account_member_0(j);
        lemma_req_str(self.name, es[0].1);
        lemma_cosmos_account_member_1(j);
        lemma_req_str(self.id, es[1].1);
        lemma_cosmos_account_member_2(j);
        lemma_req_str(self.location, es[2].1);
        lemma_cosmos_account_member_3(j);
        lemma_req_str(self.resource_group, es[3].1);
        lemma_cosmos_account_member_4(j);
        lemma_req_str(self.resource_type, es[4].1);
        lemma_cosmos_account_member_5(j);
        lemma_req_str(self.kind, es[5].1);
        lemma_cosmos_account_member_6(j);
        lemma_req_str(self.provisioning_state, es[6].1);
        lemma_cosmos_account_member_7(j);
        lemma_req_str(self.document_endpoint, es[7].1);
        lemma_cosmos_account_member_8(j);
        lemma_opt_str_map(self.tags, es[8].1);
        lemma_cosmos_account_member_9(j);
        lemma_opt_shape(self.backup_policy, es[9].1);
        lemma_cosmos_account_member_10(j);
        lemma_opt_shape(self.analytical_storage_configuration, es[10].1);
        lemma_cosmos_account_member_11(j);
        lemma_opt_shape(self.api_properties, es[11].1);
        lemma_cosmos_account_member_12(j);
        lemma_opt_shapes(self.capabilities, es[12].1);
        lemma_cosmos_account_member_13(j);
        lemma_opt_shape(self.capacity, es[13].1);
        lemma_cosmos_account_member_14(j);
        lemma_opt_shape(self.consistency_policy, es[14].1);
        lemma_cosmos_account_member_15(j);
        lemma_opt_shapes(self.cors, es[15].1);
        lemma_cosmos_account_member_16(j);
        lemma_opt_str(self.create_mode, es[16].1);
        lemma_cosmos_account_member_17(j);
        lemma_opt_str(self.customer_managed_key_status, es[17].1);
        lemma_cosmos_account_member_18(j);
        lemma_opt_str(self.database_account_offer_type, es[18].1);
        lemma_cosmos_account_member_19(j);
        lemma_opt_str(self.default_identity, es[19].1);
        lemma_cosmos_account_member_20(j);
        lemma_opt_bool(self.disable_key_based_metadata_write_access, es[20].1);
        lemma_cosmos_account_member_21(j);
        lemma_opt_bool(self.disable_local_auth, es[21].1);
        lemma_cosmos_account_member_22(j);
        lemma_opt_bool(self.enable_analytical_storage, es[22].1);
        lemma_cosmos_account_member_23(j);
        lemma_opt_bool(self.enable_automatic_failover, es[23].1);
        lemma_cosmos_account_member_24(j);
        lemma_opt_bool(self.enable_burst_capacity, es[24].1);
        lemma_cosmos_account_member_25(j);
        lemma_opt_bool(self.enable_cassandra_connector, es[25].1);
        lemma_cosmos_account_member_26(j);
        lemma_opt_bool(self.enable_free_tier, es[26].1);
        lemma_cosmos_account_member_27(j);
        lemma_opt_bool(self.enable_multiple_write_locations, es[27].1);
        lemma_cosmos_account_member_28(j);
        lemma_opt_bool(self.enable_partition_merge, es[28].1);
        lemma_cosmos_account_member_29(j);
        lemma_opt_bool(self.enable_per_region_per_partition_autoscale, es[29].1);
        lemma_cosmos_account_member_30(j);
        lemma_opt_shapes(self.failover_policies, es[30].1);
        lemma_cosmos_account_member_31(j);
        lemma_opt_shape(self.identity, es[31].1);
        lemma_cosmos_account_member_32(j);
        lemma_opt_str(self.instance_id, es[32].1);
        lemma_cosmos_account_member_33(j);
        lemma_opt_shapes(self.ip_rules, es[33].1);
        lemma_cosmos_account_member_34(j);
        lemma_opt_bool(self.is_virtual_network_filter_enabled, es[34].1);
        lemma_cosmos_account_member_35(j);
        lemma_opt_str(self.key_vault_key_uri, es[35].1);
        lemma_cosmos_account_member_36(j);
        lemma_opt_shape(self.keys_metadata, es[36].1);
        lemma_cosmos_account_member_37(j);
        lemma_opt_shapes(self.locations, es[37].1);
        lemma_cosmos_account_member_38(j);
        lemma_opt_str(self.minimal_tls_version, es[38].1);
        lemma_cosmos_account_member_39(j);
        lemma_opt_str(self.network_acl_bypass, es[39].1);
        lemma_cosmos_account_member_40(j);
        lemma_opt_strs(self.network_acl_bypass_resource_ids, es[40].1);
        lemma_cosmos_account_member_41(j);
        lemma_opt_shapes(self.private_endpoint_connections, es[41].1);
        lemma_cosmos_account_member_42(j);
        lemma_opt_str(self.public_network_access, es[42].1);
        lemma_cosmos_account_member_43(j);
        lemma_opt_shapes(self.read_locations, es[43].1);
        lemma_cosmos_account_member_44(j);
        lemma_opt_shape(self.restore_parameters, es[44].1);
        lemma_cosmos_account_member_45(j);
        lemma_opt_shape(self.system_data, es[45].1);
        lemma_cosmos_account_member_46(j);
        lemma_opt_shapes(self.virtual_network_rules, es[46].1);
        lemma_cosmos_account_member_47(j);
        lemma_opt_shapes(self.write_locations, es[47].1);
    }
}

/// In the canonical form of a [`CosmosAccount`], the field `name` is found at position 0.
proof fn lemma_cosmos_account_member_0(j: JsonValue)
    requires
        j is Object,
        names_of(j->Object_0@) == cosmos_account_member_names(),
    ensures
        field_of(j, seq!["name"@]) == Some(j->Object_0@[0].1),
{
    reveal_strlit("name");
    assert("name"@.len() == 4);
    lemma_field_at(j, cosmos_account_member_names(), seq!["name"@], 0);
}

/// In the canonical form of a [`CosmosAccount`], the field `id` is found at position 1.
proof fn lemma_cosmos_account_member_1(j: JsonValue)
    requires
        j is Object,
        names_of(j->Object_0@) == cosmos_account_member_names(),
    ensures
        field_of(j, seq!["id"@]) == Some(j->Object_0@[1].1),
{
    reveal_strlit("id");
    assert("id"@.len() == 2);
    reveal_strlit("name");
    assert("name"@.len() == 4);
    lemma_field_at(j, cosmos_account_member_names(), seq!["id"@], 1);
}

/// In the canonical form of a [`CosmosAccount`], the field `location` is found at position 2.
proof fn lemma_cosmos_account_member_2(j: JsonValue)
    requires
        j is Object,
        names_of(j->Object_0@) == cosmos_account_member_names(),
    ensures
        field_of(j, seq!["location"@]) == Some(j->Object_0@[2].1),
{
    reveal_strlit("id");
    assert("id"@.len() == 2);
    reveal_strlit("location");
    assert("location"@.len() == 8);
    reveal_strlit("name");
    assert("name"@.len() == 4);
    lemma_field_at(j, cosmos_account_member_names(), seq!["location"@], 2);
}

/// In the canonical form of a [`CosmosAccount`], the field `resource_group` is found at position 3.
proof fn lemma_cosmos_account_member_3(j: JsonValue)
    requires
        j is Object,
        names_of(j->Object_0@) == cosmos_account_member_names(),
    ensures
        field_of(j, seq!["resource_group"@, "resourceGroup"@]) == Some(j->Object_0@[3].1),
{
    reveal_strlit("id");
    assert("id"@.len() == 2);
    reveal_strlit("location");
    assert("location"@.len() == 8);
    reveal_strlit("name");
    assert("name"@.len() == 4);
    reveal_strlit("resource_group");
    assert("resource_group"@.len() == 14);
    lemma_field_at(j, cosmos_account_member_names(), seq!["resource_group"@, "resourceGroup"@], 3);
}

/// In the canonical form of a [`CosmosAccount`], the field `type` is found at position 4.
proof fn lemma_cosmos_account_member_4(j: JsonValue)
    requires
        j is Object,
        names_of(j->Object_0@) == cosmos_account_member_names(),
    ensures
        field_of(j, seq!["type"@, "resourceType"@, "resource_type"@]) == Some(j->Object_0@[4].1),
{
    reveal_strlit("id");
    assert("id"@.len() == 2);
    reveal_strlit("location");
    assert("location"@.len() == 8);
    reveal_strlit("name");
    assert("name"@.len() == 4);
    reveal_strlit("resource_group");
    assert("resource_group"@.len() == 14);
    reveal_strlit("type");
    assert("type"@.len() == 4);
    assert("name"@[0] != "type"@[0]);
    lemma_field_at(j, cosmos_account_member_names(), seq!["type"@, "resourceType"@, "resource_type"@], 4);
}

/// In the canonical form of a [`CosmosAccount`], the field `kind` is found at position 5.
proof fn lemma_cosmos_account_member_5(j: JsonValue)
    requires
        j is Object,
        names_of(j->Object_0@) == cosmos_account_member_names(),
    ensures
        field_of(j, seq!["kind"@]) == Some(j->Object_0@[5].1),
{
    reveal_strlit("id");
    assert("id"@.len() == 2);
    reveal_strlit("kind");
    assert("kind"@.len() == 4);
    reveal_strlit("location");
    assert("location"@.len() == 8);
    reveal_strlit("name");
    assert("name"@.len() == 4);
    reveal_strlit("resource_group");
    assert("resource_group"@.len() == 14);
    reveal_strlit("type");
    assert("type"@.len() == 4);
    assert("name"@[0] != "kind"@[0]);
    assert("type"@[0] != "kind"@[0]);
    lemma_field_at(j, cosmos_account_member_names(), seq!["kind"@], 5);
}

/// In the canonical form of a [`CosmosAccount`], the field `provisioning_state` is found at position 6.
proof fn lemma_cosmos_account_member_6(j: JsonValue)
    requires
        j is Object,
        names_of(j->Object_0@) == cosmos_account_member_names(),
    ensures
        field_of(j, seq!["provisioning_state"@, "provisioningState"@]) == Some(j->Object_0@[6].1),
{
    reveal_strlit("id");
    assert("id"@.len() == 2);
    reveal_strlit("kind");
    assert("kind"@.len() == 4);
    reveal_strlit("location");
    assert("location"@.len() == 8);
    reveal_strlit("name");
    assert("name"@.len() == 4);
    reveal_strlit("provisioning_state");
    assert("provisioning_state"@.len() == 18);
    reveal_strlit("resource_group");
    assert("resource_group"@.len() == 14);
    reveal_strlit("type");
    assert("type"@.len() == 4);
    lemma_field_at(j, cosmos_account_member_names(), seq!["provisioning_state"@, "provisioningState"@], 6);
}

/// In the canonical form of a [`CosmosAccount`], the field `document_endpoint` is found at position 7.
proof fn lemma_cosmos_account_member_7(j: JsonValue)
    requires
        j is Object,
        names_of(j->Object_0@) == cosmos_account_member_names(),
    ensures
        field_of(j, seq!["document_endpoint"@, "documentEndpoint"@]) == Some(j->Object_0@[7].1),
{
    reveal_strlit("document_endpoint");
    assert("document_endpoint"@.len() == 17);
    reveal_strlit("id");
    assert("id"@.len() == 2);
    reveal_strlit("kind");
    assert("kind"@.len() == 4);
    reveal_strlit("location");
    assert("location"@.len() == 8);
    reveal_strlit("name");
    assert("name"@.len() == 4);
    reveal_strlit("provisioning_state");
    assert("provisioning_state"@.len() == 18);
    reveal_strlit("resource_group");
    assert("resource_group"@.len() == 14);
    reveal_strlit("type");
    assert("type"@.len() == 4);
    lemma_field_at(j, cosmos_account_member_names(), seq!["document_endpoint"@, "documentEndpoint"@], 7);
}

/// In the canonical form of a [`CosmosAccount`], the field `tags` is found at position 8.
proof fn lemma_cosmos_account_member_8(j: JsonValue)
    requires
        j is Object,
        names_of(j->Object_0@) == cosmos_account_member_names(),
    ensures
        field_of(j, seq!["tags"@]) == Some(j->Object_0@[8].1),
{
    reveal_strlit("document_endpoint");
    assert("document_endpoint"@.len() == 17);
    reveal_strlit("id");
    assert("id"@.len() == 2);
    reveal_strlit("kind");
    assert("kind"@.len() == 4);
    reveal_strlit("location");
    assert("location"@.len() == 8);
    reveal_strlit("name");
    assert("name"@.len() == 4);
    reveal_strlit("provisioning_state");
    assert("provisioning_state"@.len() == 18);
    reveal_strlit("resource_group");
    assert("resource_group"@.len() == 14);
    reveal_strlit("tags");
    assert("tags"@.len() == 4);
    reveal_strlit("type");
    assert("type"@.len() == 4);
    assert("name"@[0] != "tags"@[0]);
    assert("type"@[1] != "tags"@[1]);
    assert("kind"@[0] != "tags"@[0]);
    lemma_field_at(j, cosmos_account_member_names(), seq!["tags"@], 8);
}

/// In the canonical form of a [`CosmosAccount`], the field `backup_policy` is found at position 9.
proof fn lemma_cosmos_account_member_9(j: JsonValue)
    requires
        j is Object,
        names_of(j->Object_0@) == cosmos_account_member_names(),
    ensures
        field_of(j, seq!["backup_policy"@, "backupPolicy"@]) == Some(j->Object_0@[9].1),
{
    reveal_strlit("backup_policy");
    assert("backup_policy"@.len() == 13);
    reveal_strlit("document_endpoint");
    assert("document_endpoint"@.len() == 17);
    reveal_strlit("id");
    assert("id"@.len() == 2);
    reveal_strlit("kind");
    assert("kind"@.len() == 4);
    reveal_strlit("location");
    assert("location"@.len() == 8);
    reveal_strlit("name");
    assert("name"@.len() == 4);
    reveal_strlit("provisioning_state");
    assert("provisioning_state"@.len() == 18);
    reveal_strlit("resource_group");
    assert("resource_group"@.len() == 14);
    reveal_strlit("tags");
    assert("tags"@.len() == 4);
    reveal_strlit("type");
    assert("type"@.len() == 4);
    lemma_field_at(j, cosmos_account_member_names(), seq!["backup_policy"@, "backupPolicy"@], 9);
}

/// In the canonical form of a [`CosmosAccount`], the field `analytical_storage_configuration` is found at position 10.
proof fn lemma_cosmos_account_member_10(j: JsonValue)
    requires
        j is Object,
        names_of(j->Object_0@) == cosmos_account_member_names(),
    ensures
        field_of(j, seq!["analytical_storage_configuration"@, "analyticalStorageConfiguration"@]) == Some(j->Object_0@[10].1),
{
    reveal_strlit("analytical_storage_configuration");
    assert("analytical_storage_configuration"@.len() == 32);
    reveal_strlit("backup_policy");
    assert("backup_policy"@.len() == 13);
    reveal_strlit("document_endpoint");
    assert("document_endpoint"@.len() == 17);
    reveal_strlit("id");
    assert("id"@.len() == 2);
    reveal_strlit("kind");
    assert("kind"@.len() == 4);
    reveal_strlit("location");
    assert("location"@.len() == 8);
    reveal_strlit("name");
    assert("name"@.len() == 4);
    reveal_strlit("provisioning_state");
    assert("provisioning_state"@.len() == 18);
    reveal_strlit("resource_group");
    assert("resource_group"@.len() == 14);
    reveal_strlit("tags");
    assert("tags"@.len() == 4);
    reveal_strlit("type");
    assert("type"@.len() == 4);
    lemma_field_at(j, cosmos_account_member_names(), seq!["analytical_storage_configuration"@, "analyticalStorageConfiguration"@], 10);
}

/// In the canonical form of a [`CosmosAccount`], the field `api_properties` is found at position 11.
proof fn lemma_cosmos_account_member_11(j: JsonValue)
    requires
        j is Object,
        names_of(j->Object_0@) == cosmos_account_member_names(),
    ensures
        field_of(j, seq!["api_properties"@, "apiProperties"@]) == Some(j->Object_0@[11].1),
{
    reveal_strlit("analytical_storage_configuration");
    assert("analytical_storage_configuration"@.len() == 32);
    reveal_strlit("api_properties");
    assert("api_properties"@.len() == 14);
    reveal_strlit("backup_policy");
    assert("backup_policy"@.len() == 13);
    reveal_strlit("document_endpoint");
    assert("document_endpoint"@.len() == 17);
    reveal_strlit("id");
    assert("id"@.len() == 2);
    reveal_strlit("kind");
    assert("kind"@.len() == 4);
    reveal_strlit("location");
    assert("location"@.len() == 8);
    reveal_strlit("name");
    assert("name"@.len() == 4);
    reveal_strlit("provisioning_state");
    assert("provisioning_state"@.len() == 18);
    reveal_strlit("resource_group");
    assert("resource_group"@.len() == 14);
    reveal_strlit("tags");
    assert("tags"@.len() == 4);
    reveal_strlit("type");
    assert("type"@.len() == 4);
    assert("resource_group"@[0] != "api_properties"@[0]);
    lemma_field_at(j, cosmos_account_member_names(), seq!["api_properties"@, "apiProperties"@], 11);
}

/// In the canonical form of a [`CosmosAccount`], the field `capabilities` is found at position 12.
proof fn lemma_cosmos_account_member_12(j: JsonValue)
    requires
        j is Object,
        names_of(j->Object_0@) == cosmos_account_member_names(),
    ensures
        field_of(j, seq!["capabilities"@]) == Some(j->Object_0@[12].1),
{
    reveal_strlit("analytical_storage_configuration");
    assert("analytical_storage_configuration"@.len() == 32);
    reveal_strlit("api_properties");
    assert("api_properties"@.len() == 14);
    reveal_strlit("backup_policy");
    assert("backup_policy"@.len() == 13);
    reveal_strlit("capabilities");
    assert("capabilities"@.len() == 12);
    reveal_strlit("document_endpoint");
    assert("document_endpoint"@.len() == 17);
    reveal_strlit("id");
    assert("id"@.len() == 2);
    reveal_strlit("kind");
    assert("kind"@.len() == 4);
    reveal_strlit("location");
    assert("location"@.len() == 8);
    reveal_strlit("name");
    assert("name"@.len() == 4);
    reveal_strlit("provisioning_state");
    assert("provisioning_state"@.len() == 18);
    reveal_strlit("resource_group");
    assert("resource_group"@.len() == 14);
    reveal_strlit("tags");
    assert("tags"@.len() == 4);
    reveal_strlit("type");
    assert("type"@.len() == 4);
    lemma_field_at(j, cosmos_account_member_names(), seq!["capabilities"@], 12);
}

/// In the canonical form of a [`CosmosAccount`], the field `capacity` is found at position 13.
proof fn lemma_cosmos_account_member_13(j: JsonValue)
    requires
        j is Object,
        names_of(j->Object_0@) == cosmos_account_member_names(),
    ensures
        field_of(j, seq!["capacity"@]) == Some(j->Object_0@[13].1),
{
    reveal_strlit("analytical_storage_configuration");
    assert("analytical_storage_configuration"@.len() == 32);
    reveal_strlit("api_properties");
    assert("api_properties"@.len() == 14);
    reveal_strlit("backup_policy");
    assert("backup_policy"@.len() == 13);
    reveal_strlit("capabilities");
    assert("capabilities"@.len() == 12);
    reveal_strlit("capacity");
    assert("capacity"@.len() == 8);
    reveal_strlit("document_endpoint");
    assert("document_endpoint"@.len() == 17);
    reveal_strlit("id");
    assert("id"@.len() == 2);
    reveal_strlit("kind");
    assert("kind"@.len() == 4);
    reveal_strlit("location");
    assert("location"@.len() == 8);
    reveal_strlit("name");
    assert("name"@.len() == 4);
    reveal_strlit("provisioning_state");
    assert("provisioning_state"@.len() == 18);
    reveal_strlit("resource_group");
    assert("resource_group"@.len() == 14);
    reveal_strlit("tags");
    assert("tags"@.len() == 4);
    reveal_strlit("type");
    assert("type"@.len() == 4);
    assert("location"@[0] != "capacity"@[0]);
    lemma_field_at(j, cosmos_account_member_names(), seq!["capacity"@], 13);
}

/// In the canonical form of a [`CosmosAccount`], the field `consistency_policy` is found at position 14.
proof fn lemma_cosmos_account_member_14(j: JsonValue)
    requires
        j is Object,
        names_of(j->Object_0@) == cosmos_account_member_names(),
    ensures
        field_of(j, seq!["consistency_policy"@, "consistencyPolicy"@]) == Some(j->Object_0@[14].1),
{
    reveal_strlit("analytical_storage_configuration");
    assert("analytical_storage_configuration"@.len() == 32);
    reveal_strlit("api_properties");
    assert("api_properties"@.len() == 14);
    reveal_strlit("backup_policy");
    assert("backup_policy"@.len() == 13);
    reveal_strlit("capabilities");
    assert("capabilities"@.len() == 12);
    reveal_strlit("capacity");
    assert("capacity"@.len() == 8);
    reveal_strlit("consistency_policy");
    assert("consistency_policy"@.len() == 18);
    reveal_strlit("document_endpoint");
    assert("document_endpoint"@.len() == 17);
    reveal_strlit("id");
    assert("id"@.len() == 2);
    reveal_strlit("kind");
    assert("kind"@.len() == 4);
    reveal_strlit("location");
    assert("location"@.len() == 8);
    reveal_strlit("name");
    assert("name"@.len() == 4);
    reveal_strlit("provisioning_state");
    assert("provisioning_state"@.len() == 18);
    reveal_strlit("resource_group");
    assert("resource_group"@.len() == 14);
    reveal_strlit("tags");
    assert("tags"@.len() == 4);
    reveal_strlit("type");
    assert("type"@.len() == 4);
    assert("provisioning_state"@[0] != "consistency_policy"@[0]);
    lemma_field_at(j, cosmos_account_member_names(), seq!["consistency_policy"@, "consistencyPolicy"@], 14);
}

/// In the canonical form of a [`CosmosAccount`], the field `cors` is found at position 15.
proof fn lemma_cosmos_account_member_15(j: JsonValue)
    requires
        j is Object,
        names_of(j->Object_0@) == cosmos_account_member_names(),
    ensures
        field_of(j, seq!["cors"@]) == Some(j->Object_0@[15].1),
{
    reveal_strlit("analytical_storage_configuration");
    assert("analytical_storage_configuration"@.len() == 32);
    reveal_strlit("api_properties");
    assert("api_properties"@.len() == 14);
    reveal_strlit("backup_policy");
    assert("backup_policy"@.len() == 13);
    reveal_strlit("capabilities");
    assert("capabilities"@.len() == 12);
    reveal_strlit("capacity");
    assert("capacity"@.len() == 8);
    reveal_strlit("consistency_policy");
    assert("consistency_policy"@.len() == 18);
    reveal_strlit("cors");
    assert("cors"@.len() == 4);
    reveal_strlit("document_endpoint");
    assert("document_endpoint"@.len() == 17);
    reveal_strlit("id");
    assert("id"@.len() == 2);
    reveal_strlit("kind");
    assert("kind"@.len() == 4);
    reveal_strlit("location");
    assert("location"@.len() == 8);
    reveal_strlit("name");
    assert("name"@.len() == 4);
    reveal_strlit("provisioning_state");
    assert("provisioning_state"@.len() == 18);
    reveal_strlit("resource_group");
    assert("resource_group"@.len() == 14);
    reveal_strlit("tags");
    assert("tags"@.len() == 4);
    reveal_strlit("type");
    assert("type"@.len() == 4);
    assert("name"@[0] != "cors"@[0]);
    assert("type"@[0] != "cors"@[0]);
    assert("kind"@[0] != "cors"@[0]);
    assert("tags"@[0] != "cors"@[0]);
    lemma_field_at(j, cosmos_account_member_names(), seq!["cors"@], 15);
}

/// In the canonical form of a [`CosmosAccount`], the field `create_mode` is found at position 16.
proof fn lemma_cosmos_account_member_16(j: JsonValue)
    requires
        j is Object,
        names_of(j->Object_0@) == cosmos_account_member_names(),
    ensures
        field_of(j, seq!["create_mode"@, "createMode"@]) == Some(j->Object_0@[16].1),
{
    reveal_strlit("analytical_storage_configuration");
    assert("analytical_storage_configuration"@.len() == 32);
    reveal_strlit("api_properties");
    assert("api_properties"@.len() == 14);
    reveal_strlit("backup_policy");
    assert("backup_policy"@.len() == 13);
    reveal_strlit("capabilities");
    assert("capabilities"@.len() == 12);
    reveal_strlit("capacity");
    assert("capacity"@.len() == 8);
    reveal_strlit("consistency_policy");
    assert("consistency_policy"@.len() == 18);
    reveal_strlit("cors");
    assert("cors"@.len() == 4);
    reveal_strlit("create_mode");
    assert("create_mode"@.len() == 11);
    reveal_strlit("document_endpoint");
    assert("document_endpoint"@.len() == 17);
    reveal_strlit("id");
    assert("id"@.len() == 2);
    reveal_strlit("kind");
    assert("kind"@.len() == 4);
    reveal_strlit("location");
    assert("location"@.len() == 8);
    reveal_strlit("name");
    assert("name"@.len() == 4);
    reveal_strlit("provisioning_state");
    assert("provisioning_state"@.len() == 18);
    reveal_strlit("resource_group");
    assert("resource_group"@.len() == 14);
    reveal_strlit("tags");
    assert("tags"@.len() == 4);
    reveal_strlit("type");
    assert("type"@.len() == 4);
    lemma_field_at(j, cosmos_account_member_names(), seq!["create_mode"@, "createMode"@], 16);
}

/// In the canonical form of a [`CosmosAccount`], the field `customer_managed_key_status` is found at position 17.
proof fn lemma_cosmos_account_member_17(j: JsonValue)
    requires
        j is Object,
        names_of(j->Object_0@) == cosmos_account_member_names(),
    ensures
        field_of(j, seq!["customer_managed_key_status"@, "customerManagedKeyStatus"@]) == Some(j->Object_0@[17].1),
{
    reveal_strlit("analytical_storage_configuration");
    assert("analytical_storage_configuration"@.len() == 32);
    reveal_strlit("api_properties");
    assert("api_properties"@.len() == 14);
    reveal_strlit("backup_policy");
    assert("backup_policy"@.len() == 13);
    reveal_strlit("capabilities");
    assert("capabilities"@.len() == 12);
    reveal_strlit("capacity");
    assert("capacity"@.len() == 8);
    reveal_strlit("consistency_policy");
    assert("consistency_policy"@.len() == 18);
    reveal_strlit("cors");
    assert("cors"@.len() == 4);
    reveal_strlit("create_mode");
    assert("create_mode"@.len() == 11);
    reveal_strlit("customer_managed_key_status");
    assert("customer_managed_key_status"@.len() == 27);
    reveal_strlit("document_endpoint");
    assert("document_endpoint"@.len() == 17);
    reveal_strlit("id");
    assert("id"@.len() == 2);
    reveal_strlit("kind");
    assert("kind"@.len() == 4);
    reveal_strlit("location");
    assert("location"@.len() == 8);
    reveal_strlit("name");
    assert("name"@.len() == 4);
    reveal_strlit("provisioning_state");
    assert("provisioning_state"@.len() == 18);
    reveal_strlit("resource_group");
    assert("resource_group"@.len() == 14);
    reveal_strlit("tags");
    assert("tags"@.len() == 4);
    reveal_strlit("type");
    assert("type"@.len() == 4);
    lemma_field_at(j, cosmos_account_member_names(), seq!["customer_managed_key_status"@, "customerManagedKeyStatus"@], 17);
}

/// In the canonical form of a [`CosmosAccount`], the field `database_account_offer_type` is found at position 18.
proof fn lemma_cosmos_account_member_18(j: JsonValue)
    requires
        j is Object,
        names_of(j->Object_0@) == cosmos_account_member_names(),
    ensures
        field_of(j, seq!["database_account_offer_type"@, "databaseAccountOfferType"@]) == Some(j->Object_0@[18].1),
{
    reveal_strlit("analytical_storage_configuration");
    assert("analytical_storage_configuration"@.len() == 32);
    reveal_strlit("api_properties");
    assert("api_properties"@.len() == 14);
    reveal_strlit("backup_policy");
    assert("backup_policy"@.len() == 13);
    reveal_strlit("capabilities");
    assert("capabilities"@.len() == 12);
    reveal_strlit("capacity");
    assert("capacity"@.len() == 8);
    reveal_strlit("consistency_policy");
    assert("consistency_policy"@.len() == 18);
    reveal_strlit("cors");
    assert("cors"@.len() == 4);
    reveal_strlit("create_mode");
    assert("create_mode"@.len() == 11);
    reveal_strlit("customer_managed_key_status");
    assert("customer_managed_key_status"@.len() == 27);
    reveal_strlit("database_account_offer_type");
    assert("database_account_offer_type"@.len() == 27);
    reveal_strlit("document_endpoint");
    assert("document_endpoint"@.len() == 17);
    reveal_strlit("id");
    assert("id"@.len() == 2);
    reveal_strlit("kind");
    assert("kind"@.len() == 4);
    reveal_strlit("location");
    assert("location"@.len() == 8);
    reveal_strlit("name");
    assert("name"@.len() == 4);
    reveal_strlit("provisioning_state");
    assert("provisioning_state"@.len() == 18);
    reveal_strlit("resource_group");
    assert("resource_group"@.len() == 14);
    reveal_strlit("tags");
    assert("tags"@.len() == 4);
    reveal_strlit("type");
    assert("type"@.len() == 4);
    assert("customer_managed_key_status"@[0] != "database_account_offer_type"@[0]);
    lemma_field_at(j, cosmos_account_member_names(), seq!["database_account_offer_type"@, "databaseAccountOfferType"@], 18);
}

/// In the canonical form of a [`CosmosAccount`], the field `default_identity` is found at position 19.
proof fn lemma_cosmos_account_member_19(j: JsonValue)
    requires
        j is Object,
        names_of(j->Object_0@) == cosmos_account_member_names(),
    ensures
        field_of(j, seq!["default_identity"@, "defaultIdentity"@]) == Some(j->Object_0@[19].1),
{
    reveal_strlit("analytical_storage_configuration");
    assert("analytical_storage_configuration"@.len() == 32);
    reveal_strlit("api_properties");
    assert("api_properties"@.len() == 14);
    reveal_strlit("backup_policy");
    assert("backup_policy"@.len() == 13);
    reveal_strlit("capabilities");
    assert("capabilities"@.len() == 12);
    reveal_strlit("capacity");
    assert("capacity"@.len() == 8);
    reveal_strlit("consistency_policy");
    assert("consistency_policy"@.len() == 18);
    reveal_strlit("cors");
    assert("cors"@.len() == 4);
    reveal_strlit("create_mode");
    assert("create_mode"@.len() == 11);
    reveal_strlit("customer_managed_key_status");
    assert("customer_managed_key_status"@.len() == 27);
    reveal_strlit("database_account_offer_type");
    assert("database_account_offer_type"@.len() == 27);
    reveal_strlit("default_identity");
    assert("default_identity"@.len() == 16);
    reveal_strlit("document_endpoint");
    assert("document_endpoint"@.len() == 17);
    reveal_strlit("id");
    assert("id"@.len() == 2);
    reveal_strlit("kind");
    assert("kind"@.len() == 4);
    reveal_strlit("location");
    assert("location"@.len() == 8);
    reveal_strlit("name");
    assert("name"@.len() == 4);
    reveal_strlit("provisioning_state");
    assert("provisioning_state"@.len() == 18);
    reveal_strlit("resource_group");
    assert("resource_group"@.len() == 14);
    reveal_strlit("tags");
    assert("tags"@.len() == 4);
    reveal_strlit("type");
    assert("type"@.len() == 4);
    lemma_field_at(j, cosmos_account_member_names(), seq!["default_identity"@, "defaultIdentity"@], 19);
}

/// In the canonical form of a [`CosmosAccount`], the field `disable_key_based_metadata_write_access` is found at position 20.
proof fn lemma_cosmos_account_member_20(j: JsonValue)
    requires
        j is Object,
        names_of(j->Object_0@) == cosmos_account_member_names(),
    ensures
        field_of(j, seq!["disable_key_based_metadata_write_access"@, "disableKeyBasedMetadataWriteAccess"@]) == Some(j->Object_0@[20].1),
{
    reveal_strlit("analytical_storage_configuration");
    assert("analytical_storage_configuration"@.len() == 32);
    reveal_strlit("api_properties");
    assert("api_properties"@.len() == 14);
    reveal_strlit("backup_policy");
    assert("backup_policy"@.len() == 13);
    reveal_strlit("capabilities");
    assert("capabilities"@.len() == 12);
    reveal_strlit("capacity");
    assert("capacity"@.len() == 8);
    reveal_strlit("consistency_policy");
    assert("consistency_policy"@.len() == 18);
    reveal_strlit("cors");
    assert("cors"@.len() == 4);
    reveal_strlit("create_mode");
    assert("create_mode"@.len() == 11);
    reveal_strlit("customer_managed_key_status");
    assert("customer_managed_key_status"@.len() == 27);
    reveal_strlit("database_account_offer_type");
    assert("database_account_offer_type"@.len() == 27);
    reveal_strlit("default_identity");
    assert("default_identity"@.len() == 16);
    reveal_strlit("disable_key_based_metadata_write_access");
    assert("disable_key_based_metadata_write_access"@.len() == 39);
    reveal_strlit("document_endpoint");
    assert("document_endpoint"@.len() == 17);
    reveal_strlit("id");
    assert("id"@.len() == 2);
    reveal_strlit("kind");
    assert("kind"@.len() == 4);
    reveal_strlit("location");
    assert("location"@.len() == 8);
    reveal_strlit("name");
    assert("name"@.len() == 4);
    reveal_strlit("provisioning_state");
    assert("provisioning_state"@.len() == 18);
    reveal_strlit("resource_group");
    assert("resource_group"@.len() == 14);
    reveal_strlit("tags");
    assert("tags"@.len() == 4);
    reveal_strlit("type");
    assert("type"@.len() == 4);
    lemma_field_at(j, cosmos_account_member_names(), seq!["disable_key_based_metadata_write_access"@, "disableKeyBasedMetadataWriteAccess"@], 20);
}

/// In the canonical form of a [`CosmosAccount`], the field `disable_local_auth` is found at position 21.
proof fn lemma_cosmos_account_member_21(j: JsonValue)
    requires
        j is Object,
        names_of(j->Object_0@) == cosmos_account_member_names(),
    ensures
        field_of(j, seq!["disable_local_auth"@, "disableLocalAuth"@]) == Some(j->Object_0@[21].1),
{
    reveal_strlit("analytical_storage_configuration");
    assert("analytical_storage_configuration"@.len() == 32);
    reveal_strlit("api_properties");
    assert("api_properties"@.len() == 14);
    reveal_strlit("backup_policy");
    assert("backup_policy"@.len() == 13);
    reveal_strlit("capabilities");
    assert("capabilities"@.len() == 12);
    reveal_strlit("capacity");
    assert("capacity"@.len() == 8);
    reveal_strlit("consistency_policy");
    assert("consistency_policy"@.len() == 18);
    reveal_strlit("cors");
    assert("cors"@.len() == 4);
    reveal_strlit("create_mode");
    assert("create_mode"@.len() == 11);
    reveal_strlit("customer_managed_key_status");
    assert("customer_managed_key_status"@.len() == 27);
    reveal_strlit("database_account_offer_type");
    assert("database_account_offer_type"@.len() == 27);
    reveal_strlit("default_identity");
    assert("default_identity"@.len() == 16);
    reveal_strlit("disable_key_based_metadata_write_access");
    assert("disable_key_based_metadata_write_access"@.len() == 39);
    reveal_strlit("disable_local_auth");
    assert("disable_local_auth"@.len() == 18);
    reveal_strlit("document_endpoint");
    assert("document_endpoint"@.len() == 17);
    reveal_strlit("id");
    assert("id"@.len() == 2);
    reveal_strlit("kind");
    assert("kind"@.len() == 4);
    reveal_strlit("location");
    assert("location"@.len() == 8);
    reveal_strlit("name");
    assert("name"@.len() == 4);
    reveal_strlit("provisioning_state");
    assert("provisioning_state"@.len() == 18);
    reveal_strlit("resource_group");
    assert("resource_group"@.len() == 14);
    reveal_strlit("tags");
    assert("tags"@.len() == 4);
    reveal_strlit("type");
    assert("type"@.len() == 4);
    assert("provisioning_state"@[0] != "disable_local_auth"@[0]);
    assert("consistency_policy"@[0] != "disable_local_auth"@[0]);
    lemma_field_at(j, cosmos_account_member_names(), seq!["disable_local_auth"@, "disableLocalAuth"@], 21);
}

/// In the canonical form of a [`CosmosAccount`], the field `enable_analytical_storage` is found at position 22.
proof fn lemma_cosmos_account_member_22(j: JsonValue)
    requires
        j is Object,
        names_of(j->Object_0@) == cosmos_account_member_names(),
    ensures
        field_of(j, seq!["enable_analytical_storage"@, "enableAnalyticalStorage"@]) == Some(j->Object_0@[22].1),
{
    reveal_strlit("analytical_storage_configuration");
    assert("analytical_storage_configuration"@.len() == 32);
    reveal_strlit("api_properties");
    assert("api_properties"@.len() == 14);
    reveal_strlit("backup_policy");
    assert("backup_policy"@.len() == 13);
    reveal_strlit("capabilities");
    assert("capabilities"@.len() == 12);
    reveal_strlit("capacity");
    assert("capacity"@.len() == 8);
    reveal_strlit("consistency_policy");
    assert("consistency_policy"@.len() == 18);
    reveal_strlit("cors");
    assert("cors"@.len() == 4);
    reveal_strlit("create_mode");
    assert("create_mode"@.len() == 11);
    reveal_strlit("customer_managed_key_status");
    assert("customer_managed_key_status"@.len() == 27);
    reveal_strlit("database_account_offer_type");
    assert("database_account_offer_type"@.len() == 27);
    reveal_strlit("default_identity");
    assert("default_identity"@.len() == 16);
    reveal_strlit("disable_key_based_metadata_write_access");
    assert("disable_key_based_metadata_write_access"@.len() == 39);
    reveal_strlit("disable_local_auth");
    assert("disable_local_auth"@.len() == 18);
    reveal_strlit("document_endpoint");
    assert("document_endpoint"@.len() == 17);
    reveal_strlit("enable_analytical_storage");
    assert("enable_analytical_storage"@.len() == 25);
    reveal_strlit("id");
    assert("id"@.len() == 2);
    reveal_strlit("kind");
    assert("kind"@.len() == 4);
    reveal_strlit("location");
    assert("location"@.len() == 8);
    reveal_strlit("name");
    assert("name"@.len() == 4);
    reveal_strlit("provisioning_state");
    assert("provisioning_state"@.len() == 18);
    reveal_strlit("resource_group");
    assert("resource_group"@.len() == 14);
    reveal_strlit("tags");
    assert("tags"@.len() == 4);
    reveal_strlit("type");
    assert("type"@.len() == 4);
    lemma_field_at(j, cosmos_account_member_names(), seq!["enable_analytical_storage"@, "enableAnalyticalStorage"@], 22);
}

/// In the canonical form of a [`CosmosAccount`], the field `enable_automatic_failover` is found at position 23.
proof fn lemma_cosmos_account_member_23(j: JsonValue)
    requires
        j is Object,
        names_of(j->Object_0@) == cosmos_account_member_names(),
    ensures
        field_of(j, seq!["enable_automatic_failover"@, "enableAutomaticFailover"@]) == Some(j->Object_0@[23].1),
{
    reveal_strlit("analytical_storage_configuration");
    assert("analytical_storage_configuration"@.len() == 32);
    reveal_strlit("api_properties");
    assert("api_properties"@.len() == 14);
    reveal_strlit("backup_policy");
    assert("backup_policy"@.len() == 13);
    reveal_strlit("capabilities");
    assert("capabilities"@.len() == 12);
    reveal_strlit("capacity");
    assert("capacity"@.len() == 8);
    reveal_strlit("consistency_policy");
    assert("consistency_policy"@.len() == 18);
    reveal_strlit("cors");
    assert("cors"@.len() == 4);
    reveal_strlit("create_mode");
    assert("create_mode"@.len() == 11);
    reveal_strlit("customer_managed_key_status");
    assert("customer_managed_key_status"@.len() == 27);
    reveal_strlit("database_account_offer_type");
    assert("database_account_offer_type"@.len() == 27);
    reveal_strlit("default_identity");
    assert("default_identity"@.len() == 16);
    reveal_strlit("disable_key_based_metadata_write_access");
    assert("disable_key_based_metadata_write_access"@.len() == 39);
    reveal_strlit("disable_local_auth");
    assert("disable_local_auth"@.len() == 18);
    reveal_strlit("document_endpoint");
    assert("document_endpoint"@.len() == 17);
    reveal_strlit("enable_analytical_storage");
    assert("enable_analytical_storage"@.len() == 25);
    reveal_strlit("enable_automatic_failover");
    assert("enable_automatic_failover"@.len() == 25);
    reveal_strlit("id");
    assert("id"@.len() == 2);
    reveal_strlit("kind");
    assert("kind"@.len() == 4);
    reveal_strlit("location");
    assert("location"@.len() == 8);
    reveal_strlit("name");
    assert("name"@.len() == 4);
    reveal_strlit("provisioning_state");
    assert("provisioning_state"@.len() == 18);
    reveal_strlit("resource_group");
    assert("resource_group"@.len() == 14);
    reveal_strlit("tags");
    assert("tags"@.len() == 4);
    reveal_strlit("type");
    assert("type"@.len() == 4);
    assert("enable_analytical_storage"@[8] != "enable_automatic_failover"@[8]);
    lemma_field_at(j, cosmos_account_member_names(), seq!["enable_automatic_failover"@, "enableAutomaticFailover"@], 23);
}

/// In the canonical form of a [`CosmosAccount`], the field `enable_burst_capacity` is found at position 24.
proof fn lemma_cosmos_account_member_24(j: JsonValue)
    requires
        j is Object,
        names_of(j->Object_0@) == cosmos_account_member_names(),
    ensures
        field_of(j, seq!["enable_burst_capacity"@, "enableBurstCapacity"@]) == Some(j->Object_0@[24].1),
{
    reveal_strlit("analytical_storage_configuration");
    assert("analytical_storage_configuration"@.len() == 32);
    reveal_strlit("api_properties");
    assert("api_properties"@.len() == 14);
    reveal_strlit("backup_policy");
    assert("backup_policy"@.len() == 13);
    reveal_strlit("capabilities");
    assert("capabilities"@.len() == 12);
    reveal_strlit("capacity");
    assert("capacity"@.len() == 8);
    reveal_strlit("consistency_policy");
    assert("consistency_policy"@.len() == 18);
    reveal_strlit("cors");
    assert("cors"@.len() == 4);
    reveal_strlit("create_mode");
    assert("create_mode"@.len() == 11);
    reveal_strlit("customer_managed_key_status");
    assert("customer_managed_key_status"@.len() == 27);
    reveal_strlit("database_account_offer_type");
    assert("database_account_offer_type"@.len() == 27);
    reveal_strlit("default_identity");
    assert("default_identity"@.len() == 16);
    reveal_strlit("disable_key_based_metadata_write_access");
    assert("disable_key_based_metadata_write_access"@.len() == 39);
    reveal_strlit("disable_local_auth");
    assert("disable_local_auth"@.len() == 18);
    reveal_strlit("document_endpoint");
    assert("document_endpoint"@.len() == 17);
    reveal_strlit("enable_analytical_storage");
    assert("enable_analytical_storage"@.len() == 25);
    reveal_strlit("enable_automatic_failover");
    assert("enable_automatic_failover"@.len() == 25);
    reveal_strlit("enable_burst_capacity");
    assert("enable_burst_capacity"@.len() == 21);
    reveal_strlit("id");
    assert("id"@.len() == 2);
    reveal_strlit("kind");
    assert("kind"@.len() == 4);
    reveal_strlit("location");
    assert("location"@.len() == 8);
    reveal_strlit("name");
    assert("name"@.len() == 4);
    reveal_strlit("provisioning_state");
    assert("provisioning_state"@.len() == 18);
    reveal_strlit("resource_group");
    assert("resource_group"@.len() == 14);
    reveal_strlit("tags");
    assert("tags"@.len() == 4);
    reveal_strlit("type");
    assert("type"@.len() == 4);
    lemma_field_at(j, cosmos_account_member_names(), seq!["enable_burst_capacity"@, "enableBurstCapacity"@], 24);
}

/// In the canonical form of a [`CosmosAccount`], the field `enable_cassandra_connector` is found at position 25.
proof fn lemma_cosmos_account_member_25(j: JsonValue)
    requires
        j is Object,
        names_of(j->Object_0@) == cosmos_account_member_names(),
    ensures
        field_of(j, seq!["enable_cassandra_connector"@, "enableCassandraConnector"@]) == Some(j->Object_0@[25].1),
{
    reveal_strlit("analytical_storage_configuration");
    assert("analytical_storage_configuration"@.len() == 32);
    reveal_strlit("api_properties");
    assert("api_properties"@.len() == 14);
    reveal_strlit("backup_policy");
    assert("backup_policy"@.len() == 13);
    reveal_strlit("capabilities");
    assert("capabilities"@.len() == 12);
    reveal_strlit("capacity");
    assert("capacity"@.len() == 8);
    reveal_strlit("consistency_policy");
    assert("consistency_policy"@.len() == 18);
    reveal_strlit("cors");
    assert("cors"@.len() == 4);
    reveal_strlit("create_mode");
    assert("create_mode"@.len() == 11);
    reveal_strlit("customer_managed_key_status");
    assert("customer_managed_key_status"@.len() == 27);
    reveal_strlit("database_account_offer_type");
    assert("database_account_offer_type"@.len() == 27);
    reveal_strlit("default_identity");
    assert("default_identity"@.len() == 16);
    reveal_strlit("disable_key_based_metadata_write_access");
    assert("disable_key_based_metadata_write_access"@.len() == 39);
    reveal_strlit("disable_local_auth");
    assert("disable_local_auth"@.len() == 18);
    reveal_strlit("document_endpoint");
    assert("document_endpoint"@.len() == 17);
    reveal_strlit("enable_analytical_storage");
    assert("enable_analytical_storage"@.len() == 25);
    reveal_strlit("enable_automatic_failover");
    assert("enable_automatic_failover"@.len() == 25);
    reveal_strlit("enable_burst_capacity");
    assert("enable_burst_capacity"@.len() == 21);
    reveal_strlit("enable_cassandra_connector");
    assert("enable_cassandra_connector"@.len() == 26);
    reveal_strlit("id");
    assert("id"@.len() == 2);
    reveal_strlit("kind");
    assert("kind"@.len() == 4);
    reveal_strlit("location");
    assert("location"@.len() == 8);
    reveal_strlit("name");
    assert("name"@.len() == 4);
    reveal_strlit("provisioning_state");
    assert("provisioning_state"@.len() == 18);
    reveal_strlit("resource_group");
    assert("resource_group"@.len() == 14);
    reveal_strlit("tags");
    assert("tags"@.len() == 4);
    reveal_strlit("type");
    assert("type"@.len() == 4);
    lemma_field_at(j, cosmos_account_member_names(), seq!["enable_cassandra_connector"@, "enableCassandraConnector"@], 25);
}

/// In the canonical form of a [`CosmosAccount`], the field `enable_free_tier` is found at position 26.
proof fn lemma_cosmos_account_member_26(j: JsonValue)
    requires
        j is Object,
        names_of(j->Object_0@) == cosmos_account_member_names(),
    ensures
        field_of(j, seq!["enable_free_tier"@, "enableFreeTier"@]) == Some(j->Object_0@[26].1),
{
    reveal_strlit("analytical_storage_configuration");
    assert("analytical_storage_configuration"@.len() == 32);
    reveal_strlit("api_properties");
    assert("api_properties"@.len() == 14);
    reveal_strlit("backup_policy");
    assert("backup_policy"@.len() == 13);
    reveal_strlit("capabilities");
    assert("capabilities"@.len() == 12);
    reveal_strlit("capacity");
    assert("capacity"@.len() == 8);
    reveal_strlit("consistency_policy");
    assert("consistency_policy"@.len() == 18);
    reveal_strlit("cors");
    assert("cors"@.len() == 4);
    reveal_strlit("create_mode");
    assert("create_mode"@.len() == 11);
    reveal_strlit("customer_managed_key_status");
    assert("customer_managed_key_status"@.len() == 27);
    reveal_strlit("database_account_offer_type");
    assert("database_account_offer_type"@.len() == 27);
    reveal_strlit("default_identity");
    assert("default_identity"@.len() == 16);
    reveal_strlit("disable_key_based_metadata_write_access");
    assert("disable_key_based_metadata_write_access"@.len() == 39);
    reveal_strlit("disable_local_auth");
    assert("disable_local_auth"@.len() == 18);
    reveal_strlit("document_endpoint");
    assert("document_endpoint"@.len() == 17);
    reveal_strlit("enable_analytical_storage");
    assert("enable_analytical_storage"@.len() == 25);
    reveal_strlit("enable_automatic_failover");
    assert("enable_automatic_failover"@.len() == 25);
    reveal_strlit("enable_burst_capacity");
    assert("enable_burst_capacity"@.len() == 21);
    reveal_strlit("enable_cassandra_connector");
    assert("enable_cassandra_connector"@.len() == 26);
    reveal_strlit("enable_free_tier");
    assert("enable_free_tier"@.len() == 16);
    reveal_strlit("id");
    assert("id"@.len() == 2);
    reveal_strlit("kind");
    assert("kind"@.len() == 4);
    reveal_strlit("location");
    assert("location"@.len() == 8);
    reveal_strlit("name");
    assert("name"@.len() == 4);
    reveal_strlit("provisioning_state");
    assert("provisioning_state"@.len() == 18);
    reveal_strlit("resource_group");
    assert("resource_group"@.len() == 14);
    reveal_strlit("tags");
    assert("tags"@.len() == 4);
    reveal_strlit("type");
    assert("type"@.len() == 4);
    assert("default_identity"@[0] != "enable_free_tier"@[0]);
    lemma_field_at(j, cosmos_account_member_names(), seq!["enable_free_tier"@, "enableFreeTier"@], 26);
}

/// In the canonical form of a [`CosmosAccount`], the field `enable_multiple_write_locations` is found at position 27.
proof fn lemma_cosmos_account_member_27(j: JsonValue)
    requires
        j is Object,
        names_of(j->Object_0@) == cosmos_account_member_names(),
    ensures
        field_of(j, seq!["enable_multiple_write_locations"@, "enableMultipleWriteLocations"@]) == Some(j->Object_0@[27].1),
{
    reveal_strlit("analytical_storage_configuration");
    assert("analytical_storage_configuration"@.len() == 32);
    reveal_strlit("api_properties");
    assert("api_properties"@.len() == 14);
    reveal_strlit("backup_policy");
    assert("backup_policy"@.len() == 13);
    reveal_strlit("capabilities");
    assert("capabilities"@.len() == 12);
    reveal_strlit("capacity");
    assert("capacity"@.len() == 8);
    reveal_strlit("consistency_policy");
    assert("consistency_policy"@.len() == 18);
    reveal_strlit("cors");
    assert("cors"@.len() == 4);
    reveal_strlit("create_mode");
    assert("create_mode"@.len() == 11);
    reveal_strlit("customer_managed_key_status");
    assert("customer_managed_key_status"@.len() == 27);
    reveal_strlit("database_account_offer_type");
    assert("database_account_offer_type"@.len() == 27);
    reveal_strlit("default_identity");
    assert("default_identity"@.len() == 16);
    reveal_strlit("disable_key_based_metadata_write_access");
    assert("disable_key_based_metadata_write_access"@.len() == 39);
    reveal_strlit("disable_local_auth");
    assert("disable_local_auth"@.len() == 18);
    reveal_strlit("document_endpoint");
    assert("document_endpoint"@.len() == 17);
    reveal_strlit("enable_analytical_storage");
    assert("enable_analytical_storage"@.len() == 25);
    reveal_strlit("enable_automatic_failover");
    assert("enable_automatic_failover"@.len() == 25);
    reveal_strlit("enable_burst_capacity");
    assert("enable_burst_capacity"@.len() == 21);
    reveal_strlit("enable_cassandra_connector");
    assert("enable_cassandra_connector"@.len() == 26);
    reveal_strlit("enable_free_tier");
    assert("enable_free_tier"@.len() == 16);
    reveal_strlit("enable_multiple_write_locations");
    assert("enable_multiple_write_locations"@.len() == 31);
    reveal_strlit("id");
    assert("id"@.len() == 2);
    reveal_strlit("kind");
    assert("kind"@.len() == 4);
    reveal_strlit("location");
    assert("location"@.len() == 8);
    reveal_strlit("name");
    assert("name"@.len() == 4);
    reveal_strlit("provisioning_state");
    assert("provisioning_state"@.len() == 18);
    reveal_strlit("resource_group");
    assert("resource_group"@.len() == 14);
    reveal_strlit("tags");
    assert("tags"@.len() == 4);
    reveal_strlit("type");
    assert("type"@.len() == 4);
    lemma_field_at(j, cosmos_account_member_names(), seq!["enable_multiple_write_locations"@, "enableMultipleWriteLocations"@], 27);
}

/// In the canonical form of a [`CosmosAccount`], the field `enable_partition_merge` is found at position 28.
proof fn lemma_cosmos_account_member_28(j: JsonValue)
    requires
        j is Object,
        names_of(j->Object_0@) == cosmos_account_member_names(),
    ensures
        field_of(j, seq!["enable_partition_merge"@, "enablePartitionMerge"@]) == Some(j->Object_0@[28].1),
{
    reveal_strlit("analytical_storage_configuration");
    assert("analytical_storage_configuration"@.len() == 32);
    reveal_strlit("api_properties");
    assert("api_properties"@.len() == 14);
    reveal_strlit("backup_policy");
    assert("backup_policy"@.len() == 13);
    reveal_strlit("capabilities");
    assert("capabilities"@.len() == 12);
    reveal_strlit("capacity");
    assert("capacity"@.len() == 8);
    reveal_strlit("consistency_policy");
    assert("consistency_policy"@.len() == 18);
    reveal_strlit("cors");
    assert("cors"@.len() == 4);
    reveal_strlit("create_mode");
    assert("create_mode"@.len() == 11);
    reveal_strlit("customer_managed_key_status");
    assert("customer_managed_key_status"@.len() == 27);
    reveal_strlit("database_account_offer_type");
    assert("database_account_offer_type"@.len() == 27);
    reveal_strlit("default_identity");
    assert("default_identity"@.len() == 16);
    reveal_strlit("disable_key_based_metadata_write_access");
    assert("disable_key_based_metadata_write_access"@.len() == 39);
    reveal_strlit("disable_local_auth");
    assert("disable_local_auth"@.len() == 18);
    reveal_strlit("document_endpoint");
    assert("document_endpoint"@.len() == 17);
    reveal_strlit("enable_analytical_storage");
    assert("enable_analytical_storage"@.len() == 25);
    reveal_strlit("enable_automatic_failover");
    assert("enable_automatic_failover"@.len() == 25);
    reveal_strlit("enable_burst_capacity");
    assert("enable_burst_capacity"@.len() == 21);
    reveal_strlit("enable_cassandra_connector");
    assert("enable_cassandra_connector"@.len() == 26);
    reveal_strlit("enable_free_tier");
    assert("enable_free_tier"@.len() == 16);
    reveal_strlit("enable_multiple_write_locations");
    assert("enable_multiple_write_locations"@.len() == 31);
    reveal_strlit("enable_partition_merge");
    assert("enable_partition_merge"@.len() == 22);
    reveal_strlit("id");
    assert("id"@.len() == 2);
    reveal_strlit("kind");
    assert("kind"@.len() == 4);
    reveal_strlit("location");
    assert("location"@.len() == 8);
    reveal_strlit("name");
    assert("name"@.len() == 4);
    reveal_strlit("provisioning_state");
    assert("provisioning_state"@.len() == 18);
    reveal_strlit("resource_group");
    assert("resource_group"@.len() == 14);
    reveal_strlit("tags");
    assert("tags"@.len() == 4);
    reveal_strlit("type");
    assert("type"@.len() == 4);
    lemma_field_at(j, cosmos_account_member_names(), seq!["enable_partition_merge"@, "enablePartitionMerge"@], 28);
}

/// In the canonical form of a [`CosmosAccount`], the field `enable_per_region_per_partition_autoscale` is found at position 29.
proof fn lemma_cosmos_account_member_29(j: JsonValue)
    requires
        j is Object,
        names_of(j->Object_0@) == cosmos_account_member_names(),
    ensures
        field_of(j, seq!["enable_per_region_per_partition_autoscale"@, "enablePerRegionPerPartitionAutoscale"@]) == Some(j->Object_0@[29].1),
{
    reveal_strlit("analytical_storage_configuration");
    assert("analytical_storage_configuration"@.len() == 32);
    reveal_strlit("api_properties");
    assert("api_properties"@.len() == 14);
    reveal_strlit("backup_policy");
    assert("backup_policy"@.len() == 13);
    reveal_strlit("capabilities");
    assert("capabilities"@.len() == 12);
    reveal_strlit("capacity");
    assert("capacity"@.len() == 8);
    reveal_strlit("consistency_policy");
    assert("consistency_policy"@.len() == 18);
    reveal_strlit("cors");
    assert("cors"@.len() == 4);
    reveal_strlit("create_mode");
    assert("create_mode"@.len() == 11);
    reveal_strlit("customer_managed_key_status");
    assert("customer_managed_key_status"@.len() == 27);
    reveal_strlit("database_account_offer_type");
    assert("database_account_offer_type"@.len() == 27);
    reveal_strlit("default_identity");
    assert("default_identity"@.len() == 16);
    reveal_strlit("disable_key_based_metadata_write_access");
    assert("disable_key_based_metadata_write_access"@.len() == 39);
    reveal_strlit("disable_local_auth");
    assert("disable_local_auth"@.len() == 18);
    reveal_strlit("document_endpoint");
    assert("document_endpoint"@.len() == 17);
    reveal_strlit("enable_analytical_storage");
    assert("enable_analytical_storage"@.len() == 25);
    reveal_strlit("enable_automatic_failover");
    assert("enable_automatic_failover"@.len() == 25);
    reveal_strlit("enable_burst_capacity");
    assert("enable_burst_capacity"@.len() == 21);
    reveal_strlit("enable_cassandra_connector");
    assert("enable_cassandra_connector"@.len() == 26);
    reveal_strlit("enable_free_tier");
    assert("enable_free_tier"@.len() == 16);
    reveal_strlit("enable_multiple_write_locations");
    assert("enable_multiple_write_locations"@.len() == 31);
    reveal_strlit("enable_partition_merge");
    assert("enable_partition_merge"@.len() == 22);
    reveal_strlit("enable_per_region_per_partition_autoscale");
    assert("enable_per_region_per_partition_autoscale"@.len() == 41);
    reveal_strlit("id");
    assert("id"@.len() == 2);
    reveal_strlit("kind");
    assert("kind"@.len() == 4);
    reveal_strlit("location");
    assert("location"@.len() == 8);
    reveal_strlit("name");
    assert("name"@.len() == 4);
    reveal_strlit("provisioning_state");
    assert("provisioning_state"@.len() == 18);
    reveal_strlit("resource_group");
    assert("resource_group"@.len() == 14);
    reveal_strlit("tags");
    assert("tags"@.len() == 4);
    reveal_strlit("type");
    assert("type"@.len() == 4);
    lemma_field_at(j, cosmos_account_member_names(), seq!["enable_per_region_per_partition_autoscale"@, "enablePerRegionPerPartitionAutoscale"@], 29);
}

/// In the canonical form of a [`CosmosAccount`], the field `failover_policies` is found at position 30.
proof fn lemma_cosmos_account_member_30(j: JsonValue)
    requires
        j is Object,
        names_of(j->Object_0@) == cosmos_account_member_names(),
    ensures
        field_of(j, seq!["failover_policies"@, "failoverPolicies"@]) == Some(j->Object_0@[30].1),
{
    reveal_strlit("analytical_storage_configuration");
    assert("analytical_storage_configuration"@.len() == 32);
    reveal_strlit("api_properties");
    assert("api_properties"@.len() == 14);
    reveal_strlit("backup_policy");
    assert("backup_policy"@.len() == 13);
    reveal_strlit("capabilities");
    assert("capabilities"@.len() == 12);
    reveal_strlit("capacity");
    assert("capacity"@.len() == 8);
    reveal_strlit("consistency_policy");
    assert("consistency_policy"@.len() == 18);
    reveal_strlit("cors");
    assert("cors"@.len() == 4);
    reveal_strlit("create_mode");
    assert("create_mode"@.len() == 11);
    reveal_strlit("customer_managed_key_status");
    assert("customer_managed_key_status"@.len() == 27);
    reveal_strlit("database_account_offer_type");
    assert("database_account_offer_type"@.len() == 27);
    reveal_strlit("default_identity");
    assert("default_identity"@.len() == 16);
    reveal_strlit("disable_key_based_metadata_write_access");
    assert("disable_key_based_metadata_write_access"@.len() == 39);
    reveal_strlit("disable_local_auth");
    assert("disable_local_auth"@.len() == 18);
    reveal_strlit("document_endpoint");
    assert("document_endpoint"@.len() == 17);
    reveal_strlit("enable_analytical_storage");
    assert("enable_analytical_storage"@.len() == 25);
    reveal_strlit("enable_automatic_failover");
    assert("enable_automatic_failover"@.len() == 25);
    reveal_strlit("enable_burst_capacity");
    assert("enable_burst_capacity"@.len() == 21);
    reveal_strlit("enable_cassandra_connector");
    assert("enable_cassandra_connector"@.len() == 26);
    reveal_strlit("enable_free_tier");
    assert("enable_free_tier"@.len() == 16);
    reveal_strlit("enable_multiple_write_locations");
    assert("enable_multiple_write_locations"@.len() == 31);
    reveal_strlit("enable_partition_merge");
    assert("enable_partition_merge"@.len() == 22);
    reveal_strlit("enable_per_region_per_partition_autoscale");
    assert("enable_per_region_per_partition_autoscale"@.len() == 41);
    reveal_strlit("failover_policies");
    assert("failover_policies"@.len() == 17);
    reveal_strlit("id");
    assert("id"@.len() == 2);
    reveal_strlit("kind");
    assert("kind"@.len() == 4);
    reveal_strlit("location");
    assert("location"@.len() == 8);
    reveal_strlit("name");
    assert("name"@.len() == 4);
    reveal_strlit("provisioning_state");
    assert("provisioning_state"@.len() == 18);
    reveal_strlit("resource_group");
    assert("resource_group"@.len() == 14);
    reveal_strlit("tags");
    assert("tags"@.len() == 4);
    reveal_strlit("type");
    assert("type"@.len() == 4);
    assert("document_endpoint"@[0] != "failover_policies"@[0]);
    lemma_field_at(j, cosmos_account_member_names(), seq!["failover_policies"@, "failoverPolicies"@], 30);
}

/// In the canonical form of a [`CosmosAccount`], the field `identity` is found at position 31.
proof fn lemma_cosmos_account_member_31(j: JsonValue)
    requires
        j is Object,
        names_of(j->Object_0@) == cosmos_account_member_names(),
    ensures
        field_of(j, seq!["identity"@]) == Some(j->Object_0@[31].1),
{
    reveal_strlit("analytical_storage_configuration");
    assert("analytical_storage_configuration"@.len() == 32);
    reveal_strlit("api_properties");
    assert("api_properties"@.len() == 14);
    reveal_strlit("backup_policy");
    assert("backup_policy"@.len() == 13);
    reveal_strlit("capabilities");
    assert("capabilities"@.len() == 12);
    reveal_strlit("capacity");
    assert("capacity"@.len() == 8);
    reveal_strlit("consistency_policy");
    assert("consistency_policy"@.len() == 18);
    reveal_strlit("cors");
    assert("cors"@.len() == 4);
    reveal_strlit("create_mode");
    assert("create_mode"@.len() == 11);
    reveal_strlit("customer_managed_key_status");
    assert("customer_managed_key_status"@.len() == 27);
    reveal_strlit("database_account_offer_type");
    assert("database_account_offer_type"@.len() == 27);
    reveal_strlit("default_identity");
    assert("default_identity"@.len() == 16);
    reveal_strlit("disable_key_based_metadata_write_access");
    assert("disable_key_based_metadata_write_access"@.len() == 39);
    reveal_strlit("disable_local_auth");
    assert("disable_local_auth"@.len() == 18);
    reveal_strlit("document_endpoint");
    assert("document_endpoint"@.len() == 17);
    reveal_strlit("enable_analytical_storage");
    assert("enable_analytical_storage"@.len() == 25);
    reveal_strlit("enable_automatic_failover");
    assert("enable_automatic_failover"@.len() == 25);
    reveal_strlit("enable_burst_capacity");
    assert("enable_burst_capacity"@.len() == 21);
    reveal_strlit("enable_cassandra_connector");
    assert("enable_cassandra_connector"@.len() == 26);
    reveal_strlit("enable_free_tier");
    assert("enable_free_tier"@.len() == 16);
    reveal_strlit("enable_multiple_write_locations");
    assert("enable_multiple_write_locations"@.len() == 31);
    reveal_strlit("enable_partition_merge");
    assert("enable_partition_merge"@.len() == 22);
    reveal_strlit("enable_per_region_per_partition_autoscale");
    assert("enable_per_region_per_partition_autoscale"@.len() == 41);
    reveal_strlit("failover_policies");
    assert("failover_policies"@.len() == 17);
    reveal_strlit("id");
    assert("id"@.len() == 2);
    reveal_strlit("identity");
    assert("identity"@.len() == 8);
    reveal_strlit("kind");
    assert("kind"@.len() == 4);
    reveal_strlit("location");
    assert("location"@.len() == 8);
    reveal_strlit("name");
    assert("name"@.len() == 4);
    reveal_strlit("provisioning_state");
    assert("provisioning_state"@.len() == 18);
    reveal_strlit("resource_group");
    assert("resource_group"@.len() == 14);
    reveal_strlit("tags");
    assert("tags"@.len() == 4);
    reveal_strlit("type");
    assert("type"@.len() == 4);
    assert("location"@[0] != "identity"@[0]);
    assert("capacity"@[0] != "identity"@[0]);
    lemma_field_at(j, cosmos_account_member_names(), seq!["identity"@], 31);
}

/// In the canonical form of a [`CosmosAccount`], the field `instance_id` is found at position 32.
proof fn lemma_cosmos_account_member_32(j: JsonValue)
    requires
        j is Object,
        names_of(j->Object_0@) == cosmos_account_member_names(),
    ensures
        field_of(j, seq!["instance_id"@, "instanceId"@]) == Some(j->Object_0@[32].1),
{
    reveal_strlit("analytical_storage_configuration");
    assert("analytical_storage_configuration"@.len() == 32);
    reveal_strlit("api_properties");
    assert("api_properties"@.len() == 14);
    reveal_strlit("backup_policy");
    assert("backup_policy"@.len() == 13);
    reveal_strlit("capabilities");
    assert("capabilities"@.len() == 12);
    reveal_strlit("capacity");
    assert("capacity"@.len() == 8);
    reveal_strlit("consistency_policy");
    assert("consistency_policy"@.len() == 18);
    reveal_strlit("cors");
    assert("cors"@.len() == 4);
    reveal_strlit("create_mode");
    assert("create_mode"@.len() == 11);
    reveal_strlit("customer_managed_key_status");
    assert("customer_managed_key_status"@.len() == 27);
    reveal_strlit("database_account_offer_type");
    assert("database_account_offer_type"@.len() == 27);
    reveal_strlit("default_identity");
    assert("default_identity"@.len() == 16);
    reveal_strlit("disable_key_based_metadata_write_access");
    assert("disable_key_based_metadata_write_access"@.len() == 39);
    reveal_strlit("disable_local_auth");
    assert("disable_local_auth"@.len() == 18);
    reveal_strlit("document_endpoint");
    assert("document_endpoint"@.len() == 17);
    reveal_strlit("enable_analytical_storage");
    assert("enable_analytical_storage"@.len() == 25);
    reveal_strlit("enable_automatic_failover");
    assert("enable_automatic_failover"@.len() == 25);
    reveal_strlit("enable_burst_capacity");
    assert("enable_burst_capacity"@.len() == 21);
    reveal_strlit("enable_cassandra_connector");
    assert("enable_cassandra_connector"@.len() == 26);
    reveal_strlit("enable_free_tier");
    assert("enable_free_tier"@.len() == 16);
    reveal_strlit("enable_multiple_write_locations");
    assert("enable_multiple_write_locations"@.len() == 31);
    reveal_strlit("enable_partition_merge");
    assert("enable_partition_merge"@.len() == 22);
    reveal_strlit("enable_per_region_per_partition_autoscale");
    assert("enable_per_region_per_partition_autoscale"@.len() == 41);
    reveal_strlit("failover_policies");
    assert("failover_policies"@.len() == 17);
    reveal_strlit("id");
    assert("id"@.len() == 2);
    reveal_strlit("identity");
    assert("identity"@.len() == 8);
    reveal_strlit("instance_id");
    assert("instance_id"@.len() == 11);
    reveal_strlit("kind");
    assert("kind"@.len() == 4);
    reveal_strlit("location");
    assert("location"@.len() == 8);
    reveal_strlit("name");
    assert("name"@.len() == 4);
    reveal_strlit("provisioning_state");
    assert("provisioning_state"@.len() == 18);
    reveal_strlit("resource_group");
    assert("resource_group"@.len() == 14);
    reveal_strlit("tags");
    assert("tags"@.len() == 4);
    reveal_strlit("type");
    assert("type"@.len() == 4);
    assert("create_mode"@[0] != "instance_id"@[0]);
    lemma_field_at(j, cosmos_account_member_names(), seq!["instance_id"@, "instanceId"@], 32);
}

/// In the canonical form of a [`CosmosAccount`], the field `ip_rules` is found at position 33.
proof fn lemma_cosmos_account_member_33(j: JsonValue)
    requires
        j is Object,
        names_of(j->Object_0@) == cosmos_account_member_names(),
    ensures
        field_of(j, seq!["ip_rules"@, "ipRules"@]) == Some(j->Object_0@[33].1),
{
    reveal_strlit("analytical_storage_configuration");
    assert("analytical_storage_configuration"@.len() == 32);
    reveal_strlit("api_properties");
    assert("api_properties"@.len() == 14);
    reveal_strlit("backup_policy");
    assert("backup_policy"@.len() == 13);
    reveal_strlit("capabilities");
    assert("capabilities"@.len() == 12);
    reveal_strlit("capacity");
    assert("capacity"@.len() == 8);
    reveal_strlit("consistency_policy");
    assert("consistency_policy"@.len() == 18);
    reveal_strlit("cors");
    assert("cors"@.len() == 4);
    reveal_strlit("create_mode");
    assert("create_mode"@.len() == 11);
    reveal_strlit("customer_managed_key_status");
    assert("customer_managed_key_status"@.len() == 27);
    reveal_strlit("database_account_offer_type");
    assert("database_account_offer_type"@.len() == 27);
    reveal_strlit("default_identity");
    assert("default_identity"@.len() == 16);
    reveal_strlit("disable_key_based_metadata_write_access");
    assert("disable_key_based_metadata_write_access"@.len() == 39);
    reveal_strlit("disable_local_auth");
    assert("disable_local_auth"@.len() == 18);
    reveal_strlit("document_endpoint");
    assert("document_endpoint"@.len() == 17);
    reveal_strlit("enable_analytical_storage");
    assert("enable_analytical_storage"@.len() == 25);
    reveal_strlit("enable_automatic_failover");
    assert("enable_automatic_failover"@.len() == 25);
    reveal_strlit("enable_burst_capacity");
    assert("enable_burst_capacity"@.len() == 21);
    reveal_strlit("enable_cassandra_connector");
    assert("enable_cassandra_connector"@.len() == 26);
    reveal_strlit("enable_free_tier");
    assert("enable_free_tier"@.len() == 16);
    reveal_strlit("enable_multiple_write_locations");
    assert("enable_multiple_write_locations"@.len() == 31);
    reveal_strlit("enable_partition_merge");
    assert("enable_partition_merge"@.len() == 22);
    reveal_strlit("enable_per_region_per_partition_autoscale");
    assert("enable_per_region_per_partition_autoscale"@.len() == 41);
    reveal_strlit("failover_policies");
    assert("failover_policies"@.len() == 17);
    reveal_strlit("id");
    assert("id"@.len() == 2);
    reveal_strlit("identity");
    assert("identity"@.len() == 8);
    reveal_strlit("instance_id");
    assert("instance_id"@.len() == 11);
    reveal_strlit("ip_rules");
    assert("ip_rules"@.len() == 8);
    reveal_strlit("kind");
    assert("kind"@.len() == 4);
    reveal_strlit("location");
    assert("location"@.len() == 8);
    reveal_strlit("name");
    assert("name"@.len() == 4);
    reveal_strlit("provisioning_state");
    assert("provisioning_state"@.len() == 18);
    reveal_strlit("resource_group");
    assert("resource_group"@.len() == 14);
    reveal_strlit("tags");
    assert("tags"@.len() == 4);
    reveal_strlit("type");
    assert("type"@.len() == 4);
    assert("location"@[0] != "ip_rules"@[0]);
    assert("capacity"@[0] != "ip_rules"@[0]);
    assert("identity"@[1] != "ip_rules"@[1]);
    lemma_field_at(j, cosmos_account_member_names(), seq!["ip_rules"@, "ipRules"@], 33);
}

/// In the canonical form of a [`CosmosAccount`], the field `is_virtual_network_filter_enabled` is found at position 34.
proof fn lemma_cosmos_account_member_34(j: JsonValue)
    requires
        j is Object,
        names_of(j->Object_0@) == cosmos_account_member_names(),
    ensures
        field_of(j, seq!["is_virtual_network_filter_enabled"@, "isVirtualNetworkFilterEnabled"@]) == Some(j->Object_0@[34].1),
{
    reveal_strlit("analytical_storage_configuration");
    assert("analytical_storage_configuration"@.len() == 32);
    reveal_strlit("api_properties");
    assert("api_properties"@.len() == 14);
    reveal_strlit("backup_policy");
    assert("backup_policy"@.len() == 13);
    reveal_strlit("capabilities");
    assert("capabilities"@.len() == 12);
    reveal_strlit("capacity");
    assert("capacity"@.len() == 8);
    reveal_strlit("consistency_policy");
    assert("consistency_policy"@.len() == 18);
    reveal_strlit("cors");
    assert("cors"@.len() == 4);
    reveal_strlit("create_mode");
    assert("create_mode"@.len() == 11);
    reveal_strlit("customer_managed_key_status");
    assert("customer_managed_key_status"@.len() == 27);
    reveal_strlit("database_account_offer_type");
    assert("database_account_offer_type"@.len() == 27);
    reveal_strlit("default_identity");
    assert("default_identity"@.len() == 16);
    reveal_strlit("disable_key_based_metadata_write_access");
    assert("disable_key_based_metadata_write_access"@.len() == 39);
    reveal_strlit("disable_local_auth");
    assert("disable_local_auth"@.len() == 18);
    reveal_strlit("document_endpoint");
    assert("document_endpoint"@.len() == 17);
    reveal_strlit("enable_analytical_storage");
    assert("enable_analytical_storage"@.len() == 25);
    reveal_strlit("enable_automatic_failover");
    assert("enable_automatic_failover"@.len() == 25);
    reveal_strlit("enable_burst_capacity");
    assert("enable_burst_capacity"@.len() == 21);
    reveal_strlit("enable_cassandra_connector");
    assert("enable_cassandra_connector"@.len() == 26);
    reveal_strlit("enable_free_tier");
    assert("enable_free_tier"@.len() == 16);
    reveal_strlit("enable_multiple_write_locations");
    assert("enable_multiple_write_locations"@.len() == 31);
    reveal_strlit("enable_partition_merge");
    assert("enable_partition_merge"@.len() == 22);
    reveal_strlit("enable_per_region_per_partition_autoscale");
    assert("enable_per_region_per_partition_autoscale"@.len() == 41);
    reveal_strlit("failover_policies");
    assert("failover_policies"@.len() == 17);
    reveal_strlit("id");
    assert("id"@.len() == 2);
    reveal_strlit("identity");
    assert("identity"@.len() == 8);
    reveal_strlit("instance_id");
    assert("instance_id"@.len() == 11);
    reveal_strlit("ip_rules");
    assert("ip_rules"@.len() == 8);
    reveal_strlit("is_virtual_network_filter_enabled");
    assert("is_virtual_network_filter_enabled"@.len() == 33);
    reveal_strlit("kind");
    assert("kind"@.len() == 4);
    reveal_strlit("location");
    assert("location"@.len() == 8);
    reveal_strlit("name");
    assert("name"@.len() == 4);
    reveal_strlit("provisioning_state");
    assert("provisioning_state"@.len() == 18);
    reveal_strlit("resource_group");
    assert("resource_group"@.len() == 14);
    reveal_strlit("tags");
    assert("tags"@.len() == 4);
    reveal_strlit("type");
    assert("type"@.len() == 4);
    lemma_field_at(j, cosmos_account_member_names(), seq!["is_virtual_network_filter_enabled"@, "isVirtualNetworkFilterEnabled"@], 34);
}

/// In the canonical form of a [`CosmosAccount`], the field `key_vault_key_uri` is found at position 35.
proof fn lemma_cosmos_account_member_35(j: JsonValue)
    requires
        j is Object,
        names_of(j->Object_0@) == cosmos_account_member_names(),
    ensures
        field_of(j, seq!["key_vault_key_uri"@, "keyVaultKeyUri"@]) == Some(j->Object_0@[35].1),
{
    reveal_strlit("analytical_storage_configuration");
    assert("analytical_storage_configuration"@.len() == 32);
    reveal_strlit("api_properties");
    assert("api_properties"@.len() == 14);
    reveal_strlit("backup_policy");
    assert("backup_policy"@.len() == 13);
    reveal_strlit("capabilities");
    assert("capabilities"@.len() == 12);
    reveal_strlit("capacity");
    assert("capacity"@.len() == 8);
    reveal_strlit("consistency_policy");
    assert("consistency_policy"@.len() == 18);
    reveal_strlit("cors");
    assert("cors"@.len() == 4);
    reveal_strlit("create_mode");
    assert("create_mode"@.len() == 11);
    reveal_strlit("customer_managed_key_status");
    assert("customer_managed_key_status"@.len() == 27);
    reveal_strlit("database_account_offer_type");
    assert("database_account_offer_type"@.len() == 27);
    reveal_strlit("default_identity");
    assert("default_identity"@.len() == 16);
    reveal_strlit("disable_key_based_metadata_write_access");
    assert("disable_key_based_metadata_write_access"@.len() == 39);
    reveal_strlit("disable_local_auth");
    assert("disable_local_auth"@.len() == 18);
    reveal_strlit("document_endpoint");
    assert("document_endpoint"@.len() == 17);
    reveal_strlit("enable_analytical_storage");
    assert("enable_analytical_storage"@.len() == 25);
    reveal_strlit("enable_automatic_failover");
    assert("enable_automatic_failover"@.len() == 25);
    reveal_strlit("enable_burst_capacity");
    assert("enable_burst_capacity"@.len() == 21);
    reveal_strlit("enable_cassandra_connector");
    assert("enable_cassandra_connector"@.len() == 26);
    reveal_strlit("enable_free_tier");
    assert("enable_free_tier"@.len() == 16);
    reveal_strlit("enable_multiple_write_locations");
    assert("enable_multiple_write_locations"@.len() == 31);
    reveal_strlit("enable_partition_merge");
    assert("enable_partition_merge"@.len() == 22);
    reveal_strlit("enable_per_region_per_partition_autoscale");
    assert("enable_per_region_per_partition_autoscale"@.len() == 41);
    reveal_strlit("failover_policies");
    assert("failover_policies"@.len() == 17);
    reveal_strlit("id");
    assert("id"@.len() == 2);
    reveal_strlit("identity");
    assert("identity"@.len() == 8);
    reveal_strlit("instance_id");
    assert("instance_id"@.len() == 11);
    reveal_strlit("ip_rules");
    assert("ip_rules"@.len() == 8);
    reveal_strlit("is_virtual_network_filter_enabled");
    assert("is_virtual_network_filter_enabled"@.len() == 33);
    reveal_strlit("key_vault_key_uri");
    assert("key_vault_key_uri"@.len() == 17);
    reveal_strlit("kind");
    assert("kind"@.len() == 4);
    reveal_strlit("location");
    assert("location"@.len() == 8);
    reveal_strlit("name");
    assert("name"@.len() == 4);
    reveal_strlit("provisioning_state");
    assert("provisioning_state"@.len() == 18);
    reveal_strlit("resource_group");
    assert("resource_group"@.len() == 14);
    reveal_strlit("tags");
    assert("tags"@.len() == 4);
    reveal_strlit("type");
    assert("type"@.len() == 4);
    assert("document_endpoint"@[0] != "key_vault_key_uri"@[0]);
    assert("failover_policies"@[0] != "key_vault_key_uri"@[0]);
    lemma_field_at(j, cosmos_account_member_names(), seq!["key_vault_key_uri"@, "keyVaultKeyUri"@], 35);
}

/// In the canonical form of a [`CosmosAccount`], the field `keys_metadata` is found at position 36.
proof fn lemma_cosmos_account_member_36(j: JsonValue)
    requires
        j is Object,
        names_of(j->Object_0@) == cosmos_account_member_names(),
    ensures
        field_of(j, seq!["keys_metadata"@, "keysMetadata"@]) == Some(j->Object_0@[36].1),
{
    reveal_strlit("analytical_storage_configuration");
    assert("analytical_storage_configuration"@.len() == 32);
    reveal_strlit("api_properties");
    assert("api_properties"@.len() == 14);
    reveal_strlit("backup_policy");
    assert("backup_policy"@.len() == 13);
    reveal_strlit("capabilities");
    assert("capabilities"@.len() == 12);
    reveal_strlit("capacity");
    assert("capacity"@.len() == 8);
    reveal_strlit("consistency_policy");
    assert("consistency_policy"@.len() == 18);
    reveal_strlit("cors");
    assert("cors"@.len() == 4);
    reveal_strlit("create_mode");
    assert("create_mode"@.len() == 11);
    reveal_strlit("customer_managed_key_status");
    assert("customer_managed_key_status"@.len() == 27);
    reveal_strlit("database_account_offer_type");
    assert("database_account_offer_type"@.len() == 27);
    reveal_strlit("default_identity");
    assert("default_identity"@.len() == 16);
    reveal_strlit("disable_key_based_metadata_write_access");
    assert("disable_key_based_metadata_write_access"@.len() == 39);
    reveal_strlit("disable_local_auth");
    assert("disable_local_auth"@.len() == 18);
    reveal_strlit("document_endpoint");
    assert("document_endpoint"@.len() == 17);
    reveal_strlit("enable_analytical_storage");
    assert("enable_analytical_storage"@.len() == 25);
    reveal_strlit("enable_automatic_failover");
    assert("enable_automatic_failover"@.len() == 25);
    reveal_strlit("enable_burst_capacity");
    assert("enable_burst_capacity"@.len() == 21);
    reveal_strlit("enable_cassandra_connector");
    assert("enable_cassandra_connector"@.len() == 26);
    reveal_strlit("enable_free_tier");
    assert("enable_free_tier"@.len() == 16);
    reveal_strlit("enable_multiple_write_locations");
    assert("enable_multiple_write_locations"@.len() == 31);
    reveal_strlit("enable_partition_merge");
    assert("enable_partition_merge"@.len() == 22);
    reveal_strlit("enable_per_region_per_partition_autoscale");
    assert("enable_per_region_per_partition_autoscale"@.len() == 41);
    reveal_strlit("failover_policies");
    assert("failover_policies"@.len() == 17);
    reveal_strlit("id");
    assert("id"@.len() == 2);
    reveal_strlit("identity");
    assert("identity"@.len() == 8);
    reveal_strlit("instance_id");
    assert("instance_id"@.len() == 11);
    reveal_strlit("ip_rules");
    assert("ip_rules"@.len() == 8);
    reveal_strlit("is_virtual_network_filter_enabled");
    assert("is_virtual_network_filter_enabled"@.len() == 33);
    reveal_strlit("key_vault_key_uri");
    assert("key_vault_key_uri"@.len() == 17);
    reveal_strlit("keys_metadata");
    assert("keys_metadata"@.len() == 13);
    reveal_strlit("kind");
    assert("kind"@.len() == 4);
    reveal_strlit("location");
    assert("location"@.len() == 8);
    reveal_strlit("name");
    assert("name"@.len() == 4);
    reveal_strlit("provisioning_state");
    assert("provisioning_state"@.len() == 18);
    reveal_strlit("resource_group");
    assert("resource_group"@.len() == 14);
    reveal_strlit("tags");
    assert("tags"@.len() == 4);
    reveal_strlit("type");
    assert("type"@.len() == 4);
    assert("backup_policy"@[0] != "keys_metadata"@[0]);
    lemma_field_at(j, cosmos_account_member_names(), seq!["keys_metadata"@, "keysMetadata"@], 36);
}

/// In the canonical form of a [`CosmosAccount`], the field `locations` is found at position 37.
proof fn lemma_cosmos_account_member_37(j: JsonValue)
    requires
        j is Object,
        names_of(j->Object_0@) == cosmos_account_member_names(),
    ensures
        field_of(j, seq!["locations"@]) == Some(j->Object_0@[37].1),
{
    reveal_strlit("analytical_storage_configuration");
    assert("analytical_storage_configuration"@.len() == 32);
    reveal_strlit("api_properties");
    assert("api_properties"@.len() == 14);
    reveal_strlit("backup_policy");
    assert("backup_policy"@.len() == 13);
    reveal_strlit("capabilities");
    assert("capabilities"@.len() == 12);
    reveal_strlit("capacity");
    assert("capacity"@.len() == 8);
    reveal_strlit("consistency_policy");
    assert("consistency_policy"@.len() == 18);
    reveal_strlit("cors");
    assert("cors"@.len() == 4);
    reveal_strlit("create_mode");
    assert("create_mode"@.len() == 11);
    reveal_strlit("customer_managed_key_status");
    assert("customer_managed_key_status"@.len() == 27);
    reveal_strlit("database_account_offer_type");
    assert("database_account_offer_type"@.len() == 27);
    reveal_strlit("default_identity");
    assert("default_identity"@.len() == 16);
    reveal_strlit("disable_key_based_metadata_write_access");
    assert("disable_key_based_metadata_write_access"@.len() == 39);
    reveal_strlit("disable_local_auth");
    assert("disable_local_auth"@.len() == 18);
    reveal_strlit("document_endpoint");
    assert("document_endpoint"@.len() == 17);
    reveal_strlit("enable_analytical_storage");
    assert("enable_analytical_storage"@.len() == 25);
    reveal_strlit("enable_automatic_failover");
    assert("enable_automatic_failover"@.len() == 25);
    reveal_strlit("enable_burst_capacity");
    assert("enable_burst_capacity"@.len() == 21);
    reveal_strlit("enable_cassandra_connector");
    assert("enable_cassandra_connector"@.len() == 26);
    reveal_strlit("enable_free_tier");
    assert("enable_free_tier"@.len() == 16);
    reveal_strlit("enable_multiple_write_locations");
    assert("enable_multiple_write_locations"@.len() == 31);
    reveal_strlit("enable_partition_merge");
    assert("enable_partition_merge"@.len() == 22);
    reveal_strlit("enable_per_region_per_partition_autoscale");
    assert("enable_per_region_per_partition_autoscale"@.len() == 41);
    reveal_strlit("failover_policies");
    assert("failover_policies"@.len() == 17);
    reveal_strlit("id");
    assert("id"@.len() == 2);
    reveal_strlit("identity");
    assert("identity"@.len() == 8);
    reveal_strlit("instance_id");
    assert("instance_id"@.len() == 11);
    reveal_strlit("ip_rules");
    assert("ip_rules"@.len() == 8);
    reveal_strlit("is_virtual_network_filter_enabled");
    assert("is_virtual_network_filter_enabled"@.len() == 33);
    reveal_strlit("key_vault_key_uri");
    assert("key_vault_key_uri"@.len() == 17);
    reveal_strlit("keys_metadata");
    assert("keys_metadata"@.len() == 13);
    reveal_strlit("kind");
    assert("kind"@.len() == 4);
    reveal_strlit("location");
    assert("location"@.len() == 8);
    reveal_strlit("locations");
    assert("locations"@.len() == 9);
    reveal_strlit("name");
    assert("name"@.len() == 4);
    reveal_strlit("provisioning_state");
    assert("provisioning_state"@.len() == 18);
    reveal_strlit("resource_group");
    assert("resource_group"@.len() == 14);
    reveal_strlit("tags");
    assert("tags"@.len() == 4);
    reveal_strlit("type");
    assert("type"@.len() == 4);
    lemma_field_at(j, cosmos_account_member_names(), seq!["locations"@], 37);
}

/// In the canonical form of a [`CosmosAccount`], the field `minimal_tls_version` is found at position 38.
proof fn lemma_cosmos_account_member_38(j: JsonValue)
    requires
        j is Object,
        names_of(j->Object_0@) == cosmos_account_member_names(),
    ensures
        field_of(j, seq!["minimal_tls_version"@, "minimalTlsVersion"@]) == Some(j->Object_0@[38].1),
{
    reveal_strlit("analytical_storage_configuration");
    assert("analytical_storage_configuration"@.len() == 32);
    reveal_strlit("api_properties");
    assert("api_properties"@.len() == 14);
    reveal_strlit("backup_policy");
    assert("backup_policy"@.len() == 13);
    reveal_strlit("capabilities");
    assert("capabilities"@.len() == 12);
    reveal_strlit("capacity");
    assert("capacity"@.len() == 8);
    reveal_strlit("consistency_policy");
    assert("consistency_policy"@.len() == 18);
    reveal_strlit("cors");
    assert("cors"@.len() == 4);
    reveal_strlit("create_mode");
    assert("create_mode"@.len() == 11);
    reveal_strlit("customer_managed_key_status");
    assert("customer_managed_key_status"@.len() == 27);
    reveal_strlit("database_account_offer_type");
    assert("database_account_offer_type"@.len() == 27);
    reveal_strlit("default_identity");
    assert("default_identity"@.len() == 16);
    reveal_strlit("disable_key_based_metadata_write_access");
    assert("disable_key_based_metadata_write_access"@.len() == 39);
    reveal_strlit("disable_local_auth");
    assert("disable_local_auth"@.len() == 18);
    reveal_strlit("document_endpoint");
    assert("document_endpoint"@.len() == 17);
    reveal_strlit("enable_analytical_storage");
    assert("enable_analytical_storage"@.len() == 25);
    reveal_strlit("enable_automatic_failover");
    assert("enable_automatic_failover"@.len() == 25);
    reveal_strlit("enable_burst_capacity");
    assert("enable_burst_capacity"@.len() == 21);
    reveal_strlit("enable_cassandra_connector");
    assert("enable_cassandra_connector"@.len() == 26);
    reveal_strlit("enable_free_tier");
    assert("enable_free_tier"@.len() == 16);
    reveal_strlit("enable_multiple_write_locations");
    assert("enable_multiple_write_locations"@.len() == 31);
    reveal_strlit("enable_partition_merge");
    assert("enable_partition_merge"@.len() == 22);
    reveal_strlit("enable_per_region_per_partition_autoscale");
    assert("enable_per_region_per_partition_autoscale"@.len() == 41);
    reveal_strlit("failover_policies");
    assert("failover_policies"@.len() == 17);
    reveal_strlit("id");
    assert("id"@.len() == 2);
    reveal_strlit("identity");
    assert("identity"@.len() == 8);
    reveal_strlit("instance_id");
    assert("instance_id"@.len() == 11);
    reveal_strlit("ip_rules");
    assert("ip_rules"@.len() == 8);
    reveal_strlit("is_virtual_network_filter_enabled");
    assert("is_virtual_network_filter_enabled"@.len() == 33);
    reveal_strlit("key_vault_key_uri");
    assert("key_vault_key_uri"@.len() == 17);
    reveal_strlit("keys_metadata");
    assert("keys_metadata"@.len() == 13);
    reveal_strlit("kind");
    assert("kind"@.len() == 4);
    reveal_strlit("location");
    assert("location"@.len() == 8);
    reveal_strlit("locations");
    assert("locations"@.len() == 9);
    reveal_strlit("minimal_tls_version");
    assert("minimal_tls_version"@.len() == 19);
    reveal_strlit("name");
    assert("name"@.len() == 4);
    reveal_strlit("provisioning_state");
    assert("provisioning_state"@.len() == 18);
    reveal_strlit("resource_group");
    assert("resource_group"@.len() == 14);
    reveal_strlit("tags");
    assert("tags"@.len() == 4);
    reveal_strlit("type");
    assert("type"@.len() == 4);
    lemma_field_at(j, cosmos_account_member_names(), seq!["minimal_tls_version"@, "minimalTlsVersion"@], 38);
}

/// In the canonical form of a [`CosmosAccount`], the field `network_acl_bypass` is found at position 39.
proof fn lemma_cosmos_account_member_39(j: JsonValue)
    requires
        j is Object,
        names_of(j->Object_0@) == cosmos_account_member_names(),
    ensures
        field_of(j, seq!["network_acl_bypass"@, "networkAclBypass"@]) == Some(j->Object_0@[39].1),
{
    reveal_strlit("analytical_storage_configuration");
    assert("analytical_storage_configuration"@.len() == 32);
    reveal_strlit("api_properties");
    assert("api_properties"@.len() == 14);
    reveal_strlit("backup_policy");
    assert("backup_policy"@.len() == 13);
    reveal_strlit("capabilities");
    assert("capabilities"@.len() == 12);
    reveal_strlit("capacity");
    assert("capacity"@.len() == 8);
    reveal_strlit("consistency_policy");
    assert("consistency_policy"@.len() == 18);
    reveal_strlit("cors");
    assert("cors"@.len() == 4);
    reveal_strlit("create_mode");
    assert("create_mode"@.len() == 11);
    reveal_strlit("customer_managed_key_status");
    assert("customer_managed_key_status"@.len() == 27);
    reveal_strlit("database_account_offer_type");
    assert("database_account_offer_type"@.len() == 27);
    reveal_strlit("default_identity");
    assert("default_identity"@.len() == 16);
    reveal_strlit("disable_key_based_metadata_write_access");
    assert("disable_key_based_metadata_write_access"@.len() == 39);
    reveal_strlit("disable_local_auth");
    assert("disable_local_auth"@.len() == 18);
    reveal_strlit("document_endpoint");
    assert("document_endpoint"@.len() == 17);
    reveal_strlit("enable_analytical_storage");
    assert("enable_analytical_storage"@.len() == 25);
    reveal_strlit("enable_automatic_failover");
    assert("enable_automatic_failover"@.len() == 25);
    reveal_strlit("enable_burst_capacity");
    assert("enable_burst_capacity"@.len() == 21);
    reveal_strlit("enable_cassandra_connector");
    assert("enable_cassandra_connector"@.len() == 26);
    reveal_strlit("enable_free_tier");
    assert("enable_free_tier"@.len() == 16);
    reveal_strlit("enable_multiple_write_locations");
    assert("enable_multiple_write_locations"@.len() == 31);
    reveal_strlit("enable_partition_merge");
    assert("enable_partition_merge"@.len() == 22);
    reveal_strlit("enable_per_region_per_partition_autoscale");
    assert("enable_per_region_per_partition_autoscale"@.len() == 41);
    reveal_strlit("failover_policies");
    assert("failover_policies"@.len() == 17);
    reveal_strlit("id");
    assert("id"@.len() == 2);
    reveal_strlit("identity");
    assert("identity"@.len() == 8);
    reveal_strlit("instance_id");
    assert("instance_id"@.len() == 11);
    reveal_strlit("ip_rules");
    assert("ip_rules"@.len() == 8);
    reveal_strlit("is_virtual_network_filter_enabled");
    assert("is_virtual_network_filter_enabled"@.len() == 33);
    reveal_strlit("key_vault_key_uri");
    assert("key_vault_key_uri"@.len() == 17);
    reveal_strlit("keys_metadata");
    assert("keys_metadata"@.len() == 13);
    reveal_strlit("kind");
    assert("kind"@.len() == 4);
    reveal_strlit("location");
    assert("location"@.len() == 8);
    reveal_strlit("locations");
    assert("locations"@.len() == 9);
    reveal_strlit("minimal_tls_version");
    assert("minimal_tls_version"@.len() == 19);
    reveal_strlit("name");
    assert("name"@.len() == 4);
    reveal_strlit("network_acl_bypass");
    assert("network_acl_bypass"@.len() == 18);
    reveal_strlit("provisioning_state");
    assert("provisioning_state"@.len() == 18);
    reveal_strlit("resource_group");
    assert("resource_group"@.len() == 14);
    reveal_strlit("tags");
    assert("tags"@.len() == 4);
    reveal_strlit("type");
    assert("type"@.len() == 4);
    assert("provisioning_state"@[0] != "network_acl_bypass"@[0]);
    assert("consistency_policy"@[0] != "network_acl_bypass"@[0]);
    assert("disable_local_auth"@[0] != "network_acl_bypass"@[0]);
    lemma_field_at(j, cosmos_account_member_names(), seq!["network_acl_bypass"@, "networkAclBypass"@], 39);
}

/// In the canonical form of a [`CosmosAccount`], the field `network_acl_bypass_resource_ids` is found at position 40.
proof fn lemma_cosmos_account_member_40(j: JsonValue)
    requires
        j is Object,
        names_of(j->Object_0@) == cosmos_account_member_names(),
    ensures
        field_of(j, seq!["network_acl_bypass_resource_ids"@, "networkAclBypassResourceIds"@]) == Some(j->Object_0@[40].1),
{
    reveal_strlit("analytical_storage_configuration");
    assert("analytical_storage_configuration"@.len() == 32);
    reveal_strlit("api_properties");
    assert("api_properties"@.len() == 14);
    reveal_strlit("backup_policy");
    assert("backup_policy"@.len() == 13);
    reveal_strlit("capabilities");
    assert("capabilities"@.len() == 12);
    reveal_strlit("capacity");
    assert("capacity"@.len() == 8);
    reveal_strlit("consistency_policy");
    assert("consistency_policy"@.len() == 18);
    reveal_strlit("cors");
    assert("cors"@.len() == 4);
    reveal_strlit("create_mode");
    assert("create_mode"@.len() == 11);
    reveal_strlit("customer_managed_key_status");
    assert("customer_managed_key_status"@.len() == 27);
    reveal_strlit("database_account_offer_type");
    assert("database_account_offer_type"@.len() == 27);
    reveal_strlit("default_identity");
    assert("default_identity"@.len() == 16);
    reveal_strlit("disable_key_based_metadata_write_access");
    assert("disable_key_based_metadata_write_access"@.len() == 39);
    reveal_strlit("disable_local_auth");
    assert("disable_local_auth"@.len() == 18);
    reveal_strlit("document_endpoint");
    assert("document_endpoint"@.len() == 17);
    reveal_strlit("enable_analytical_storage");
    assert("enable_analytical_storage"@.len() == 25);
    reveal_strlit("enable_automatic_failover");
    assert("enable_automatic_failover"@.len() == 25);
    reveal_strlit("enable_burst_capacity");
    assert("enable_burst_capacity"@.len() == 21);
    reveal_strlit("enable_cassandra_connector");
    assert("enable_cassandra_connector"@.len() == 26);
    reveal_strlit("enable_free_tier");
    assert("enable_free_tier"@.len() == 16);
    reveal_strlit("enable_multiple_write_locations");
    assert("enable_multiple_write_locations"@.len() == 31);
    reveal_strlit("enable_partition_merge");
    assert("enable_partition_merge"@.len() == 22);
    reveal_strlit("enable_per_region_per_partition_autoscale");
    assert("enable_per_region_per_partition_autoscale"@.len() == 41);
    reveal_strlit("failover_policies");
    assert("failover_policies"@.len() == 17);
    reveal_strlit("id");
    assert("id"@.len() == 2);
    reveal_strlit("identity");
    assert("identity"@.len() == 8);
    reveal_strlit("instance_id");
    assert("instance_id"@.len() == 11);
    reveal_strlit("ip_rules");
    assert("ip_rules"@.len() == 8);
    reveal_strlit("is_virtual_network_filter_enabled");
    assert("is_virtual_network_filter_enabled"@.len() == 33);
    reveal_strlit("key_vault_key_uri");
    assert("key_vault_key_uri"@.len() == 17);
    reveal_strlit("keys_metadata");
    assert("keys_metadata"@.len() == 13);
    reveal_strlit("kind");
    assert("kind"@.len() == 4);
    reveal_strlit("location");
    assert("location"@.len() == 8);
    reveal_strlit("locations");
    assert("locations"@.len() == 9);
    reveal_strlit("minimal_tls_version");
    assert("minimal_tls_version"@.len() == 19);
    reveal_strlit("name");
    assert("name"@.len() == 4);
    reveal_strlit("network_acl_bypass");
    assert("network_acl_bypass"@.len() == 18);
    reveal_strlit("network_acl_bypass_resource_ids");
    assert("network_acl_bypass_resource_ids"@.len() == 31);
    reveal_strlit("provisioning_state");
    assert("provisioning_state"@.len() == 18);
    reveal_strlit("resource_group");
    assert("resource_group"@.len() == 14);
    reveal_strlit("tags");
    assert("tags"@.len() == 4);
    reveal_strlit("type");
    assert("type"@.len() == 4);
    assert("enable_multiple_write_locations"@[0] != "network_acl_bypass_resource_ids"@[0]);
    lemma_field_at(j, cosmos_account_member_names(), seq!["network_acl_bypass_resource_ids"@, "networkAclBypassResourceIds"@], 40);
}

/// In the canonical form of a [`CosmosAccount`], the field `private_endpoint_connections` is found at position 41.
proof fn lemma_cosmos_account_member_41(j: JsonValue)
    requires
        j is Object,
        names_of(j->Object_0@) == cosmos_account_member_names(),
    ensures
        field_of(j, seq!["private_endpoint_connections"@, "privateEndpointConnections"@]) == Some(j->Object_0@[41].1),
{
    reveal_strlit("analytical_storage_configuration");
    assert("analytical_storage_configuration"@.len() == 32);
    reveal_strlit("api_properties");
    assert("api_properties"@.len() == 14);
    reveal_strlit("backup_policy");
    assert("backup_policy"@.len() == 13);
    reveal_strlit("capabilities");
    assert("capabilities"@.len() == 12);
    reveal_strlit("capacity");
    assert("capacity"@.len() == 8);
    reveal_strlit("consistency_policy");
    assert("consistency_policy"@.len() == 18);
    reveal_strlit("cors");
    assert("cors"@.len() == 4);
    reveal_strlit("create_mode");
    assert("create_mode"@.len() == 11);
    reveal_strlit("customer_managed_key_status");
    assert("customer_managed_key_status"@.len() == 27);
    reveal_strlit("database_account_offer_type");
    assert("database_account_offer_type"@.len() == 27);
    reveal_strlit("default_identity");
    assert("default_identity"@.len() == 16);
    reveal_strlit("disable_key_based_metadata_write_access");
    assert("disable_key_based_metadata_write_access"@.len() == 39);
    reveal_strlit("disable_local_auth");
    assert("disable_local_auth"@.len() == 18);
    reveal_strlit("document_endpoint");
    assert("document_endpoint"@.len() == 17);
    reveal_strlit("enable_analytical_storage");
    assert("enable_analytical_storage"@.len() == 25);
    reveal_strlit("enable_automatic_failover");
    assert("enable_automatic_failover"@.len() == 25);
    reveal_strlit("enable_burst_capacity");
    assert("enable_burst_capacity"@.len() == 21);
    reveal_strlit("enable_cassandra_connector");
    assert("enable_cassandra_connector"@.len() == 26);
    reveal_strlit("enable_free_tier");
    assert("enable_free_tier"@.len() == 16);
    reveal_strlit("enable_multiple_write_locations");
    assert("enable_multiple_write_locations"@.len() == 31);
    reveal_strlit("enable_partition_merge");
    assert("enable_partition_merge"@.len() == 22);
    reveal_strlit("enable_per_region_per_partition_autoscale");
    assert("enable_per_region_per_partition_autoscale"@.len() == 41);
    reveal_strlit("failover_policies");
    assert("failover_policies"@.len() == 17);
    reveal_strlit("id");
    assert("id"@.len() == 2);
    reveal_strlit("identity");
    assert("identity"@.len() == 8);
    reveal_strlit("instance_id");
    assert("instance_id"@.len() == 11);
    reveal_strlit("ip_rules");
    assert("ip_rules"@.len() == 8);
    reveal_strlit("is_virtual_network_filter_enabled");
    assert("is_virtual_network_filter_enabled"@.len() == 33);
    reveal_strlit("key_vault_key_uri");
    assert("key_vault_key_uri"@.len() == 17);
    reveal_strlit("keys_metadata");
    assert("keys_metadata"@.len() == 13);
    reveal_strlit("kind");
    assert("kind"@.len() == 4);
    reveal_strlit("location");
    assert("location"@.len() == 8);
    reveal_strlit("locations");
    assert("locations"@.len() == 9);
    reveal_strlit("minimal_tls_version");
    assert("minimal_tls_version"@.len() == 19);
    reveal_strlit("name");
    assert("name"@.len() == 4);
    reveal_strlit("network_acl_bypass");
    assert("network_acl_bypass"@.len() == 18);
    reveal_strlit("network_acl_bypass_resource_ids");
    assert("network_acl_bypass_resource_ids"@.len() == 31);
    reveal_strlit("private_endpoint_connections");
    assert("private_endpoint_connections"@.len() == 28);
    reveal_strlit("provisioning_state");
    assert("provisioning_state"@.len() == 18);
    reveal_strlit("resource_group");
    assert("resource_group"@.len() == 14);
    reveal_strlit("tags");
    assert("tags"@.len() == 4);
    reveal_strlit("type");
    assert("type"@.len() == 4);
    lemma_field_at(j, cosmos_account_member_names(), seq!["private_endpoint_connections"@, "privateEndpointConnections"@], 41);
}

/// In the canonical form of a [`CosmosAccount`], the field `public_network_access` is found at position 42.
proof fn lemma_cosmos_account_member_42(j: JsonValue)
    requires
        j is Object,
        names_of(j->Object_0@) == cosmos_account_member_names(),
    ensures
        field_of(j, seq!["public_network_access"@, "publicNetworkAccess"@]) == Some(j->Object_0@[42].1),
{
    reveal_strlit("analytical_storage_configuration");
    assert("analytical_storage_configuration"@.len() == 32);
    reveal_strlit("api_properties");
    assert("api_properties"@.len() == 14);
    reveal_strlit("backup_policy");
    assert("backup_policy"@.len() == 13);
    reveal_strlit("capabilities");
    assert("capabilities"@.len() == 12);
    reveal_strlit("capacity");
    assert("capacity"@.len() == 8);
    reveal_strlit("consistency_policy");
    assert("consistency_policy"@.len() == 18);
    reveal_strlit("cors");
    assert("cors"@.len() == 4);
    reveal_strlit("create_mode");
    assert("create_mode"@.len() == 11);
    reveal_strlit("customer_managed_key_status");
    assert("customer_managed_key_status"@.len() == 27);
    reveal_strlit("database_account_offer_type");
    assert("database_account_offer_type"@.len() == 27);
    reveal_strlit("default_identity");
    assert("default_identity"@.len() == 16);
    reveal_strlit("disable_key_based_metadata_write_access");
    assert("disable_key_based_metadata_write_access"@.len() == 39);
    reveal_strlit("disable_local_auth");
    assert("disable_local_auth"@.len() == 18);
    reveal_strlit("document_endpoint");
    assert("document_endpoint"@.len() == 17);
    reveal_strlit("enable_analytical_storage");
    assert("enable_analytical_storage"@.len() == 25);
    reveal_strlit("enable_automatic_failover");
    assert("enable_automatic_failover"@.len() == 25);
    reveal_strlit("enable_burst_capacity");
    assert("enable_burst_capacity"@.len() == 21);
    reveal_strlit("enable_cassandra_connector");
    assert("enable_cassandra_connector"@.len() == 26);
    reveal_strlit("enable_free_tier");
    assert("enable_free_tier"@.len() == 16);
    reveal_strlit("enable_multiple_write_locations");
    assert("enable_multiple_write_locations"@.len() == 31);
    reveal_strlit("enable_partition_merge");
    assert("enable_partition_merge"@.len() == 22);
    reveal_strlit("enable_per_region_per_partition_autoscale");
    assert("enable_per_region_per_partition_autoscale"@.len() == 41);
    reveal_strlit("failover_policies");
    assert("failover_policies"@.len() == 17);
    reveal_strlit("id");
    assert("id"@.len() == 2);
    reveal_strlit("identity");
    assert("identity"@.len() == 8);
    reveal_strlit("instance_id");
    assert("instance_id"@.len() == 11);
    reveal_strlit("ip_rules");
    assert("ip_rules"@.len() == 8);
    reveal_strlit("is_virtual_network_filter_enabled");
    assert("is_virtual_network_filter_enabled"@.len() == 33);
    reveal_strlit("key_vault_key_uri");
    assert("key_vault_key_uri"@.len() == 17);
    reveal_strlit("keys_metadata");
    assert("keys_metadata"@.len() == 13);
    reveal_strlit("kind");
    assert("kind"@.len() == 4);
    reveal_strlit("location");
    assert("location"@.len() == 8);
    reveal_strlit("locations");
    assert("locations"@.len() == 9);
    reveal_strlit("minimal_tls_version");
    assert("minimal_tls_version"@.len() == 19);
    reveal_strlit("name");
    assert("name"@.len() == 4);
    reveal_strlit("network_acl_bypass");
    assert("network_acl_bypass"@.len() == 18);
    reveal_strlit("network_acl_bypass_resource_ids");
    assert("network_acl_bypass_resource_ids"@.len() == 31);
    reveal_strlit("private_endpoint_connections");
    assert("private_endpoint_connections"@.len() == 28);
    reveal_strlit("provisioning_state");
    assert("provisioning_state"@.len() == 18);
    reveal_strlit("public_network_access");
    assert("public_network_access"@.len() == 21);
    reveal_strlit("resource_group");
    assert("resource_group"@.len() == 14);
    reveal_strlit("tags");
    assert("tags"@.len() == 4);
    reveal_strlit("type");
    assert("type"@.len() == 4);
    assert("enable_burst_capacity"@[0] != "public_network_access"@[0]);
    lemma_field_at(j, cosmos_account_member_names(), seq!["public_network_access"@, "publicNetworkAccess"@], 42);
}

/// In the canonical form of a [`CosmosAccount`], the field `read_locations` is found at position 43.
proof fn lemma_cosmos_account_member_43(j: JsonValue)
    requires
        j is Object,
        names_of(j->Object_0@) == cosmos_account_member_names(),
    ensures
        field_of(j, seq!["read_locations"@, "readLocations"@]) == Some(j->Object_0@[43].1),
{
    reveal_strlit("analytical_storage_configuration");
    assert("analytical_storage_configuration"@.len() == 32);
    reveal_strlit("api_properties");
    assert("api_properties"@.len() == 14);
    reveal_strlit("backup_policy");
    assert("backup_policy"@.len() == 13);
    reveal_strlit("capabilities");
    assert("capabilities"@.len() == 12);
    reveal_strlit("capacity");
    assert("capacity"@.len() == 8);
    reveal_strlit("consistency_policy");
    assert("consistency_policy"@.len() == 18);
    reveal_strlit("cors");
    assert("cors"@.len() == 4);
    reveal_strlit("create_mode");
    assert("create_mode"@.len() == 11);
    reveal_strlit("customer_managed_key_status");
    assert("customer_managed_key_status"@.len() == 27);
    reveal_strlit("database_account_offer_type");
    assert("database_account_offer_type"@.len() == 27);
    reveal_strlit("default_identity");
    assert("default_identity"@.len() == 16);
    reveal_strlit("disable_key_based_metadata_write_access");
    assert("disable_key_based_metadata_write_access"@.len() == 39);
    reveal_strlit("disable_local_auth");
    assert("disable_local_auth"@.len() == 18);
    reveal_strlit("document_endpoint");
    assert("document_endpoint"@.len() == 17);
    reveal_strlit("enable_analytical_storage");
    assert("enable_analytical_storage"@.len() == 25);
    reveal_strlit("enable_automatic_failover");
    assert("enable_automatic_failover"@.len() == 25);
    reveal_strlit("enable_burst_capacity");
    assert("enable_burst_capacity"@.len() == 21);
    reveal_strlit("enable_cassandra_connector");
    assert("enable_cassandra_connector"@.len() == 26);
    reveal_strlit("enable_free_tier");
    assert("enable_free_tier"@.len() == 16);
    reveal_strlit("enable_multiple_write_locations");
    assert("enable_multiple_write_locations"@.len() == 31);
    reveal_strlit("enable_partition_merge");
    assert("enable_partition_merge"@.len() == 22);
    reveal_strlit("enable_per_region_per_partition_autoscale");
    assert("enable_per_region_per_partition_autoscale"@.len() == 41);
    reveal_strlit("failover_policies");
    assert("failover_policies"@.len() == 17);
    reveal_strlit("id");
    assert("id"@.len() == 2);
    reveal_strlit("identity");
    assert("identity"@.len() == 8);
    reveal_strlit("instance_id");
    assert("instance_id"@.len() == 11);
    reveal_strlit("ip_rules");
    assert("ip_rules"@.len() == 8);
    reveal_strlit("is_virtual_network_filter_enabled");
    assert("is_virtual_network_filter_enabled"@.len() == 33);
    reveal_strlit("key_vault_key_uri");
    assert("key_vault_key_uri"@.len() == 17);
    reveal_strlit("keys_metadata");
    assert("keys_metadata"@.len() == 13);
    reveal_strlit("kind");
    assert("kind"@.len() == 4);
    reveal_strlit("location");
    assert("location"@.len() == 8);
    reveal_strlit("locations");
    assert("locations"@.len() == 9);
    reveal_strlit("minimal_tls_version");
    assert("minimal_tls_version"@.len() == 19);
    reveal_strlit("name");
    assert("name"@.len() == 4);
    reveal_strlit("network_acl_bypass");
    assert("network_acl_bypass"@.len() == 18);
    reveal_strlit("network_acl_bypass_resource_ids");
    assert("network_acl_bypass_resource_ids"@.len() == 31);
    reveal_strlit("private_endpoint_connections");
    assert("private_endpoint_connections"@.len() == 28);
    reveal_strlit("provisioning_state");
    assert("provisioning_state"@.len() == 18);
    reveal_strlit("public_network_access");
    assert("public_network_access"@.len() == 21);
    reveal_strlit("read_locations");
    assert("read_locations"@.len() == 14);
    reveal_strlit("resource_group");
    assert("resource_group"@.len() == 14);
    reveal_strlit("tags");
    assert("tags"@.len() == 4);
    reveal_strlit("type");
    assert("type"@.len() == 4);
    assert("resource_group"@[2] != "read_locations"@[2]);
    assert("api_properties"@[0] != "read_locations"@[0]);
    lemma_field_at(j, cosmos_account_member_names(), seq!["read_locations"@, "readLocations"@], 43);
}

/// In the canonical form of a [`CosmosAccount`], the field `restore_parameters` is found at position 44.
proof fn lemma_cosmos_account_member_44(j: JsonValue)
    requires
        j is Object,
        names_of(j->Object_0@) == cosmos_account_member_names(),
    ensures
        field_of(j, seq!["restore_parameters"@, "restoreParameters"@]) == Some(j->Object_0@[44].1),
{
    reveal_strlit("analytical_storage_configuration");
    assert("analytical_storage_configuration"@.len() == 32);
    reveal_strlit("api_properties");
    assert("api_properties"@.len() == 14);
    reveal_strlit("backup_policy");
    assert("backup_policy"@.len() == 13);
    reveal_strlit("capabilities");
    assert("capabilities"@.len() == 12);
    reveal_strlit("capacity");
    assert("capacity"@.len() == 8);
    reveal_strlit("consistency_policy");
    assert("consistency_policy"@.len() == 18);
    reveal_strlit("cors");
    assert("cors"@.len() == 4);
    reveal_strlit("create_mode");
    assert("create_mode"@.len() == 11);
    reveal_strlit("customer_managed_key_status");
    assert("customer_managed_key_status"@.len() == 27);
    reveal_strlit("database_account_offer_type");
    assert("database_account_offer_type"@.len() == 27);
    reveal_strlit("default_identity");
    assert("default_identity"@.len() == 16);
    reveal_strlit("disable_key_based_metadata_write_access");
    assert("disable_key_based_metadata_write_access"@.len() == 39);
    reveal_strlit("disable_local_auth");
    assert("disable_local_auth"@.len() == 18);
    reveal_strlit("document_endpoint");
    assert("document_endpoint"@.len() == 17);
    reveal_strlit("enable_analytical_storage");
    assert("enable_analytical_storage"@.len() == 25);
    reveal_strlit("enable_automatic_failover");
    assert("enable_automatic_failover"@.len() == 25);
    reveal_strlit("enable_burst_capacity");
    assert("enable_burst_capacity"@.len() == 21);
    reveal_strlit("enable_cassandra_connector");
    assert("enable_cassandra_connector"@.len() == 26);
    reveal_strlit("enable_free_tier");
    assert("enable_free_tier"@.len() == 16);
    reveal_strlit("enable_multiple_write_locations");
    assert("enable_multiple_write_locations"@.len() == 31);
    reveal_strlit("enable_partition_merge");
    assert("enable_partition_merge"@.len() == 22);
    reveal_strlit("enable_per_region_per_partition_autoscale");
    assert("enable_per_region_per_partition_autoscale"@.len() == 41);
    reveal_strlit("failover_policies");
    assert("failover_policies"@.len() == 17);
    reveal_strlit("id");
    assert("id"@.len() == 2);
    reveal_strlit("identity");
    assert("identity"@.len() == 8);
    reveal_strlit("instance_id");
    assert("instance_id"@.len() == 11);
    reveal_strlit("ip_rules");
    assert("ip_rules"@.len() == 8);
    reveal_strlit("is_virtual_network_filter_enabled");
    assert("is_virtual_network_filter_enabled"@.len() == 33);
    reveal_strlit("key_vault_key_uri");
    assert("key_vault_key_uri"@.len() == 17);
    reveal_strlit("keys_metadata");
    assert("keys_metadata"@.len() == 13);
    reveal_strlit("kind");
    assert("kind"@.len() == 4);
    reveal_strlit("location");
    assert("location"@.len() == 8);
    reveal_strlit("locations");
    assert("locations"@.len() == 9);
    reveal_strlit("minimal_tls_version");
    assert("minimal_tls_version"@.len() == 19);
    reveal_strlit("name");
    assert("name"@.len() == 4);
    reveal_strlit("network_acl_bypass");
    assert("network_acl_bypass"@.len() == 18);
    reveal_strlit("network_acl_bypass_resource_ids");
    assert("network_acl_bypass_resource_ids"@.len() == 31);
    reveal_strlit("private_endpoint_connections");
    assert("private_endpoint_connections"@.len() == 28);
    reveal_strlit("provisioning_state");
    assert("provisioning_state"@.len() == 18);
    reveal_strlit("public_network_access");
    assert("public_network_access"@.len() == 21);
    reveal_strlit("read_locations");
    assert("read_locations"@.len() == 14);
    reveal_strlit("resource_group");
    assert("resource_group"@.len() == 14);
    reveal_strlit("restore_parameters");
    assert("restore_parameters"@.len() == 18);
    reveal_strlit("tags");
    assert("tags"@.len() == 4);
    reveal_strlit("type");
    assert("type"@.len() == 4);
    assert("provisioning_state"@[0] != "restore_parameters"@[0]);
    assert("consistency_policy"@[0] != "restore_parameters"@[0]);
    assert("disable_local_auth"@[0] != "restore_parameters"@[0]);
    assert("network_acl_bypass"@[0] != "restore_parameters"@[0]);
    lemma_field_at(j, cosmos_account_member_names(), seq!["restore_parameters"@, "restoreParameters"@], 44);
}

/// In the canonical form of a [`CosmosAccount`], the field `system_data` is found at position 45.
proof fn lemma_cosmos_account_member_45(j: JsonValue)
    requires
        j is Object,
        names_of(j->Object_0@) == cosmos_account_member_names(),
    ensures
        field_of(j, seq!["system_data"@, "systemData"@]) == Some(j->Object_0@[45].1),
{
    reveal_strlit("analytical_storage_configuration");
    assert("analytical_storage_configuration"@.len() == 32);
    reveal_strlit("api_properties");
    assert("api_properties"@.len() == 14);
    reveal_strlit("backup_policy");
    assert("backup_policy"@.len() == 13);
    reveal_strlit("capabilities");
    assert("capabilities"@.len() == 12);
    reveal_strlit("capacity");
    assert("capacity"@.len() == 8);
    reveal_strlit("consistency_policy");
    assert("consistency_policy"@.len() == 18);
    reveal_strlit("cors");
    assert("cors"@.len() == 4);
    reveal_strlit("create_mode");
    assert("create_mode"@.len() == 11);
    reveal_strlit("customer_managed_key_status");
    assert("customer_managed_key_status"@.len() == 27);
    reveal_strlit("database_account_offer_type");
    assert("database_account_offer_type"@.len() == 27);
    reveal_strlit("default_identity");
    assert("default_identity"@.len() == 16);
    reveal_strlit("disable_key_based_metadata_write_access");
    assert("disable_key_based_metadata_write_access"@.len() == 39);
    reveal_strlit("disable_local_auth");
    assert("disable_local_auth"@.len() == 18);
    reveal_strlit("document_endpoint");
    assert("document_endpoint"@.len() == 17);
    reveal_strlit("enable_analytical_storage");
    assert("enable_analytical_storage"@.len() == 25);
    reveal_strlit("enable_automatic_failover");
    assert("enable_automatic_failover"@.len() == 25);
    reveal_strlit("enable_burst_capacity");
    assert("enable_burst_capacity"@.len() == 21);
    reveal_strlit("enable_cassandra_connector");
    assert("enable_cassandra_connector"@.len() == 26);
    reveal_strlit("enable_free_tier");
    assert("enable_free_tier"@.len() == 16);
    reveal_strlit("enable_multiple_write_locations");
    assert("enable_multiple_write_locations"@.len() == 31);
    reveal_strlit("enable_partition_merge");
    assert("enable_partition_merge"@.len() == 22);
    reveal_strlit("enable_per_region_per_partition_autoscale");
    assert("enable_per_region_per_partition_autoscale"@.len() == 41);
    reveal_strlit("failover_policies");
    assert("failover_policies"@.len() == 17);
    reveal_strlit("id");
    assert("id"@.len() == 2);
    reveal_strlit("identity");
    assert("identity"@.len() == 8);
    reveal_strlit("instance_id");
    assert("instance_id"@.len() == 11);
    reveal_strlit("ip_rules");
    assert("ip_rules"@.len() == 8);
    reveal_strlit("is_virtual_network_filter_enabled");
    assert("is_virtual_network_filter_enabled"@.len() == 33);
    reveal_strlit("key_vault_key_uri");
    assert("key_vault_key_uri"@.len() == 17);
    reveal_strlit("keys_metadata");
    assert("keys_metadata"@.len() == 13);
    reveal_strlit("kind");
    assert("kind"@.len() == 4);
    reveal_strlit("location");
    assert("location"@.len() == 8);
    reveal_strlit("locations");
    assert("locations"@.len() == 9);
    reveal_strlit("minimal_tls_version");
    assert("minimal_tls_version"@.len() == 19);
    reveal_strlit("name");
    assert("name"@.len() == 4);
    reveal_strlit("network_acl_bypass");
    assert("network_acl_bypass"@.len() == 18);
    reveal_strlit("network_acl_bypass_resource_ids");
    assert("network_acl_bypass_resource_ids"@.len() == 31);
    reveal_strlit("private_endpoint_connections");
    assert("private_endpoint_connections"@.len() == 28);
    reveal_strlit("provisioning_state");
    assert("provisioning_state"@.len() == 18);
    reveal_strlit("public_network_access");
    assert("public_network_access"@.len() == 21);
    reveal_strlit("read_locations");
    assert("read_locations"@.len() == 14);
    reveal_strlit("resource_group");
    assert("resource_group"@.len() == 14);
    reveal_strlit("restore_parameters");
    assert("restore_parameters"@.len() == 18);
    reveal_strlit("system_data");
    assert("system_data"@.len() == 11);
    reveal_strlit("tags");
    assert("tags"@.len() == 4);
    reveal_strlit("type");
    assert("type"@.len() == 4);
    assert("create_mode"@[0] != "system_data"@[0]);
    assert("instance_id"@[0] != "system_data"@[0]);
    lemma_field_at(j, cosmos_account_member_names(), seq!["system_data"@, "systemData"@], 45);
}

/// In the canonical form of a [`CosmosAccount`], the field `virtual_network_rules` is found at position 46.
proof fn lemma_cosmos_account_member_46(j: JsonValue)
    requires
        j is Object,
        names_of(j->Object_0@) == cosmos_account_member_names(),
    ensures
        field_of(j, seq!["virtual_network_rules"@, "virtualNetworkRules"@]) == Some(j->Object_0@[46].1),
{
    reveal_strlit("analytical_storage_configuration");
    assert("analytical_storage_configuration"@.len() == 32);
    reveal_strlit("api_properties");
    assert("api_properties"@.len() == 14);
    reveal_strlit("backup_policy");
    assert("backup_policy"@.len() == 13);
    reveal_strlit("capabilities");
    assert("capabilities"@.len() == 12);
    reveal_strlit("capacity");
    assert("capacity"@.len() == 8);
    reveal_strlit("consistency_policy");
    assert("consistency_policy"@.len() == 18);
    reveal_strlit("cors");
    assert("cors"@.len() == 4);
    reveal_strlit("create_mode");
    assert("create_mode"@.len() == 11);
    reveal_strlit("customer_managed_key_status");
    assert("customer_managed_key_status"@.len() == 27);
    reveal_strlit("database_account_offer_type");
    assert("database_account_offer_type"@.len() == 27);
    reveal_strlit("default_identity");
    assert("default_identity"@.len() == 16);
    reveal_strlit("disable_key_based_metadata_write_access");
    assert("disable_key_based_metadata_write_access"@.len() == 39);
    reveal_strlit("disable_local_auth");
    assert("disable_local_auth"@.len() == 18);
    reveal_strlit("document_endpoint");
    assert("document_endpoint"@.len() == 17);
    reveal_strlit("enable_analytical_storage");
    assert("enable_analytical_storage"@.len() == 25);
    reveal_strlit("enable_automatic_failover");
    assert("enable_automatic_failover"@.len() == 25);
    reveal_strlit("enable_burst_capacity");
    assert("enable_burst_capacity"@.len() == 21);
    reveal_strlit("enable_cassandra_connector");
    assert("enable_cassandra_connector"@.len() == 26);
    reveal_strlit("enable_free_tier");
    assert("enable_free_tier"@.len() == 16);
    reveal_strlit("enable_multiple_write_locations");
    assert("enable_multiple_write_locations"@.len() == 31);
    reveal_strlit("enable_partition_merge");
    assert("enable_partition_merge"@.len() == 22);
    reveal_strlit("enable_per_region_per_partition_autoscale");
    assert("enable_per_region_per_partition_autoscale"@.len() == 41);
    reveal_strlit("failover_policies");
    assert("failover_policies"@.len() == 17);
    reveal_strlit("id");
    assert("id"@.len() == 2);
    reveal_strlit("identity");
    assert("identity"@.len() == 8);
    reveal_strlit("instance_id");
    assert("instance_id"@.len() == 11);
    reveal_strlit("ip_rules");
    assert("ip_rules"@.len() == 8);
    reveal_strlit("is_virtual_network_filter_enabled");
    assert("is_virtual_network_filter_enabled"@.len() == 33);
    reveal_strlit("key_vault_key_uri");
    assert("key_vault_key_uri"@.len() == 17);
    reveal_strlit("keys_metadata");
    assert("keys_metadata"@.len() == 13);
    reveal_strlit("kind");
    assert("kind"@.len() == 4);
    reveal_strlit("location");
    assert("location"@.len() == 8);
    reveal_strlit("locations");
    assert("locations"@.len() == 9);
    reveal_strlit("minimal_tls_version");
    assert("minimal_tls_version"@.len() == 19);
    reveal_strlit("name");
    assert("name"@.len() == 4);
    reveal_strlit("network_acl_bypass");
    assert("network_acl_bypass"@.len() == 18);
    reveal_strlit("network_acl_bypass_resource_ids");
    assert("network_acl_bypass_resource_ids"@.len() == 31);
    reveal_strlit("private_endpoint_connections");
    assert("private_endpoint_connections"@.len() == 28);
    reveal_strlit("provisioning_state");
    assert("provisioning_state"@.len() == 18);
    reveal_strlit("public_network_access");
    assert("public_network_access"@.len() == 21);
    reveal_strlit("read_locations");
    assert("read_locations"@.len() == 14);
    reveal_strlit("resource_group");
    assert("resource_group"@.len() == 14);
    reveal_strlit("restore_parameters");
    assert("restore_parameters"@.len() == 18);
    reveal_strlit("system_data");
    assert("system_data"@.len() == 11);
    reveal_strlit("tags");
    assert("tags"@.len() == 4);
    reveal_strlit("type");
    assert("type"@.len() == 4);
    reveal_strlit("virtual_network_rules");
    assert("virtual_network_rules"@.len() == 21);
    assert("enable_burst_capacity"@[0] != "virtual_network_rules"@[0]);
    assert("public_network_access"@[0] != "virtual_network_rules"@[0]);
    lemma_field_at(j, cosmos_account_member_names(), seq!["virtual_network_rules"@, "virtualNetworkRules"@], 46);
}

/// In the canonical form of a [`CosmosAccount`], the field `write_locations` is found at position 47.
proof fn lemma_cosmos_account_member_47(j: JsonValue)
    requires
        j is Object,
        names_of(j->Object_0@) == cosmos_account_member_names(),
    ensures
        field_of(j, seq!["write_locations"@, "writeLocations"@]) == Some(j->Object_0@[47].1),
{
    reveal_strlit("analytical_storage_configuration");
    assert("analytical_storage_configuration"@.len() == 32);
    reveal_strlit("api_properties");
    assert("api_properties"@.len() == 14);
    reveal_strlit("backup_policy");
    assert("backup_policy"@.len() == 13);
    reveal_strlit("capabilities");
    assert("capabilities"@.len() == 12);
    reveal_strlit("capacity");
    assert("capacity"@.len() == 8);
    reveal_strlit("consistency_policy");
    assert("consistency_policy"@.len() == 18);
    reveal_strlit("cors");
    assert("cors"@.len() == 4);
    reveal_strlit("create_mode");
    assert("create_mode"@.len() == 11);
    reveal_strlit("customer_managed_key_status");
    assert("customer_managed_key_status"@.len() == 27);
    reveal_strlit("database_account_offer_type");
    assert("database_account_offer_type"@.len() == 27);
    reveal_strlit("default_identity");
    assert("default_identity"@.len() == 16);
    reveal_strlit("disable_key_based_metadata_write_access");
    assert("disable_key_based_metadata_write_access"@.len() == 39);
    reveal_strlit("disable_local_auth");
    assert("disable_local_auth"@.len() == 18);
    reveal_strlit("document_endpoint");
    assert("document_endpoint"@.len() == 17);
    reveal_strlit("enable_analytical_storage");
    assert("enable_analytical_storage"@.len() == 25);
    reveal_strlit("enable_automatic_failover");
    assert("enable_automatic_failover"@.len() == 25);
    reveal_strlit("enable_burst_capacity");
    assert("enable_burst_capacity"@.len() == 21);
    reveal_strlit("enable_cassandra_connector");
    assert("enable_cassandra_connector"@.len() == 26);
    reveal_strlit("enable_free_tier");
    assert("enable_free_tier"@.len() == 16);
    reveal_strlit("enable_multiple_write_locations");
    assert("enable_multiple_write_locations"@.len() == 31);
    reveal_strlit("enable_partition_merge");
    assert("enable_partition_merge"@.len() == 22);
    reveal_strlit("enable_per_region_per_partition_autoscale");
    assert("enable_per_region_per_partition_autoscale"@.len() == 41);
    reveal_strlit("failover_policies");
    assert("failover_policies"@.len() == 17);
    reveal_strlit("id");
    assert("id"@.len() == 2);
    reveal_strlit("identity");
    assert("identity"@.len() == 8);
    reveal_strlit("instance_id");
    assert("instance_id"@.len() == 11);
    reveal_strlit("ip_rules");
    assert("ip_rules"@.len() == 8);
    reveal_strlit("is_virtual_network_filter_enabled");
    assert("is_virtual_network_filter_enabled"@.len() == 33);
    reveal_strlit("key_vault_key_uri");
    assert("key_vault_key_uri"@.len() == 17);
    reveal_strlit("keys_metadata");
    assert("keys_metadata"@.len() == 13);
    reveal_strlit("kind");
    assert("kind"@.len() == 4);
    reveal_strlit("location");
    assert("location"@.len() == 8);
    reveal_strlit("locations");
    assert("locations"@.len() == 9);
    reveal_strlit("minimal_tls_version");
    assert("minimal_tls_version"@.len() == 19);
    reveal_strlit("name");
    assert("name"@.len() == 4);
    reveal_strlit("network_acl_bypass");
    assert("network_acl_bypass"@.len() == 18);
    reveal_strlit("network_acl_bypass_resource_ids");
    assert("network_acl_bypass_resource_ids"@.len() == 31);
    reveal_strlit("private_endpoint_connections");
    assert("private_endpoint_connections"@.len() == 28);
    reveal_strlit("provisioning_state");
    assert("provisioning_state"@.len() == 18);
    reveal_strlit("public_network_access");
    assert("public_network_access"@.len() == 21);
    reveal_strlit("read_locations");
    assert("read_locations"@.len() == 14);
    reveal_strlit("resource_group");
    assert("resource_group"@.len() == 14);
    reveal_strlit("restore_parameters");
    assert("restore_parameters"@.len() == 18);
    reveal_strlit("system_data");
    assert("system_data"@.len() == 11);
    reveal_strlit("tags");
    assert("tags"@.len() == 4);
    reveal_strlit("type");
    assert("type"@.len() == 4);
    reveal_strlit("virtual_network_rules");
    assert("virtual_network_rules"@.len() == 21);
    reveal_strlit("write_locations");
    assert("write_locations"@.len() == 15);
    lemma_field_at(j, cosmos_account_member_names(), seq!["write_locations"@, "writeLocations"@], 47);
}

/// Analytical storage configuration
#[derive(Debug, Clone)]
pub struct AnalyticalStorageConfiguration {
    /// Schema type
    pub schema_type: Option<String>,
}

/// The member names of the JSON form of [`AnalyticalStorageConfiguration`], in order.
pub open spec fn analytical_storage_configuration_member_names() -> Seq<Seq<char>> {
    Seq::empty()
        .push("schemaType"@)
}

impl JsonShape for AnalyticalStorageConfiguration {
    open spec fn decodable(j: JsonValue) -> bool {
        &&& j is Object
        &&& ok_opt_str(field_of(j, seq!["schemaType"@]))
    }

    open spec fn decodes(j: JsonValue, x: Self) -> bool {
        &&& j is Object
        &&& dec_opt_str(field_of(j, seq!["schemaType"@]), x.schema_type)
    }

    open spec fn encodes(&self, j: JsonValue) -> bool {
        &&& j is Object
        &&& names_of(j->Object_0@) == analytical_storage_configuration_member_names()
        &&& enc_opt_str(self.schema_type, j->Object_0@[0].1)
    }

    fn from_json(j: &JsonValue) -> (r: Result<Self, AzureError>) {
        if !is_object(j) {
            return Err(not_an_object());
        }
        let k: &[&str] = &["schemaType"];
        assert(key_views(k@) =~= seq!["schemaType"@]);
        let schema_type = match opt_str(j, k) {
            Ok(v) => v,
            Err(e) => {
                return Err(e);
            },
        };
        Ok(AnalyticalStorageConfiguration { schema_type })
    }

    fn to_json(&self) -> (r: JsonValue) {
        let mut es: Vec<(String, JsonValue)> = Vec::new();
        es.push((String::from_str("schemaType"), opt_str_json(&self.schema_type)));
        assert(names_of(es@) =~= analytical_storage_configuration_member_names());
        JsonValue::Object(es)
    }

    proof fn lemma_encoding_decodes(&self, j: JsonValue) {
        reveal_strlit("schemaType");
        let es = j->Object_0@;
        let names = analytical_storage_configuration_member_names();
        assert("schemaType"@.len() == 10);
        lemma_field_at(j, names, seq!["schemaType"@], 0);
        lemma_opt_str(self.schema_type, es[0].1);
    }
}

/// API properties
#[derive(Debug, Clone)]
pub struct ApiProperties {
    /// Server version (for MongoDB)
    pub server_version: Option<String>,
}

/// The member names of the JSON form of [`ApiProperties`], in order.
pub open spec fn api_properties_member_names() -> Seq<Seq<char>> {
    Seq::empty()
        .push("serverVersion"@)
}

impl JsonShape for ApiProperties {
    open spec fn decodable(j: JsonValue) -> bool {
        &&& j is Object
        &&& ok_opt_str(field_of(j, seq!["serverVersion"@]))
    }

    open spec fn decodes(j: JsonValue, x: Self) -> bool {
        &&& j is Object
        &&& dec_opt_str(field_of(j, seq!["serverVersion"@]), x.server_version)
    }

    open spec fn encodes(&self, j: JsonValue) -> bool {
        &&& j is Object
        &&& names_of(j->Object_0@) == api_properties_member_names()
        &&& enc_opt_str(self.server_version, j->Object_0@[0].1)
    }

    fn from_json(j: &JsonValue) -> (r: Result<Self, AzureError>) {
        if !is_object(j) {
            return Err(not_an_object());
        }
        let k: &[&str] = &["serverVersion"];
        assert(key_views(k@) =~= seq!["serverVersion"@]);
        let server_version = match opt_str(j, k) {
            Ok(v) => v,
            Err(e) => {
                return Err(e);
            },
        };
        Ok(ApiProperties { server_version })
    }

    fn to_json(&self) -> (r: JsonValue) {
        let mut es: Vec<(String, JsonValue)> = Vec::new();
        es.push((String::from_str("serverVersion"), opt_str_json(&self.server_version)));
        assert(names_of(es@) =~= api_properties_member_names());
        JsonValue::Object(es)
    }

    proof fn lemma_encoding_decodes(&self, j: JsonValue) {
        reveal_strlit("serverVersion");
        let es = j->Object_0@;
        let names = api_properties_member_names();
        assert("serverVersion"@.len() == 13);
        lemma_field_at(j, names, seq!["serverVersion"@], 0);
        lemma_opt_str(self.server_version, es[0].1);
    }
}

/// Account capability
#[derive(Debug, Clone)]
pub struct Capability {
    /// Capability name
    pub name: String,
}

/// The member names of the JSON form of [`Capability`], in order.
pub open spec fn capability_member_names() -> Seq<Seq<char>> {
    Seq::empty()
        .push("name"@)
}

impl JsonShape for Capability {
    open spec fn decodable(j: JsonValue) -> bool {
        &&& j is Object
        &&& ok_req_str(field_of(j, seq!["name"@]))
    }

    open spec fn decodes(j: JsonValue, x: Self) -> bool {
        &&& j is Object
        &&& dec_req_str(field_of(j, seq!["name"@]), x.name)
    }

    open spec fn encodes(&self, j: JsonValue) -> bool {
        &&& j is Object
        &&& names_of(j->Object_0@) == capability_member_names()
        &&& enc_str(self.name, j->Object_0@[0].1)
    }

    fn from_json(j: &JsonValue) -> (r: Result<Self, AzureError>) {
        if !is_object(j) {
            return Err(not_an_object());
        }
        let k: &[&str] = &["name"];
        assert(key_views(k@) =~= seq!["name"@]);
        let name = match req_str(j, k) {
            Ok(v) => v,
            Err(e) => {
                return Err(e);
            },
        };
        Ok(Capability { name })
    }

    fn to_json(&self) -> (r: JsonValue) {
        let mut es: Vec<(String, JsonValue)> = Vec::new();
        es.push((String::from_str("name"), str_json(&self.name)));
        assert(names_of(es@) =~= capability_member_names());
        JsonValue::Object(es)
    }

    proof fn lemma_encoding_decodes(&self, j: JsonValue) {
        reveal_strlit("name");
        let es = j->Object_0@;
        let names = capability_member_names();
        assert("name"@.len() == 4);
        lemma_field_at(j, names, seq!["name"@], 0);
        lemma_req_str(self.name, es[0].1);
    }
}

/// Backup policy
#[derive(Debug, Clone)]
pub struct BackupPolicy {
    /// Backup type
    pub backup_type: String,
    /// Migration state
    pub migration_state: Option<String>,
    /// Periodic mode properties
    pub periodic_mode_properties: Option<PeriodicBackupProperties>,
    /// Continuous mode properties
    pub continuous_mode_properties: Option<ContinuousBackupProperties>,
}

/// The member names of the JSON form of [`BackupPolicy`], in order.
pub open spec fn backup_policy_member_names() -> Seq<Seq<char>> {
    Seq::empty()
        .push("type"@)
        .push("migrationState"@)
        .push("periodicModeProperties"@)
        .push("continuousModeProperties"@)
}

impl JsonShape for BackupPolicy {
    open spec fn decodable(j: JsonValue) -> bool {
        &&& j is Object
        &&& ok_req_str(field_of(j, seq!["type"@]))
        &&& ok_opt_str(field_of(j, seq!["migrationState"@]))
        &&& ok_opt_shape::<PeriodicBackupProperties>(field_of(j, seq!["periodicModeProperties"@]))
        &&& ok_opt_shape::<ContinuousBackupProperties>(field_of(j, seq!["continuousModeProperties"@]))
    }

    open spec fn decodes(j: JsonValue, x: Self) -> bool {
        &&& j is Object
        &&& dec_req_str(field_of(j, seq!["type"@]), x.backup_type)
        &&& dec_opt_str(field_of(j, seq!["migrationState"@]), x.migration_state)
        &&& dec_opt_shape(field_of(j, seq!["periodicModeProperties"@]), x.periodic_mode_properties)
        &&& dec_opt_shape(field_of(j, seq!["continuousModeProperties"@]), x.continuous_mode_properties)
    }

    open spec fn encodes(&self, j: JsonValue) -> bool {
        &&& j is Object
        &&& names_of(j->Object_0@) == backup_policy_member_names()
        &&& enc_str(self.backup_type, j->Object_0@[0].1)
        &&& enc_opt_str(self.migration_state, j->Object_0@[1].1)
        &&& enc_opt_shape(self.periodic_mode_properties, j->Object_0@[2].1)
        &&& enc_opt_shape(self.continuous_mode_properties, j->Object_0@[3].1)
    }

    fn from_json(j: &JsonValue) -> (r: Result<Self, AzureError>) {
        if !is_object(j) {
            return Err(not_an_object());
        }
        let k: &[&str] = &["type"];
        assert(key_views(k@) =~= seq!["type"@]);
        let backup_type = match req_str(j, k) {
            Ok(v) => v,
            Err(e) => {
                return Err(e);
            },
        };
        let k: &[&str] = &["migrationState"];
        assert(key_views(k@) =~= seq!["migrationState"@]);
        let migration_state = match opt_str(j, k) {
            Ok(v) => v,
            Err(e) => {
                return Err(e);
            },
        };
        let k: &[&str] = &["periodicModeProperties"];
        assert(key_views(k@) =~= seq!["periodicModeProperties"@]);
        let periodic_mode_properties = match opt_shape::<PeriodicBackupProperties>(j, k) {
            Ok(v) => v,
            Err(e) => {
                return Err(e);
            },
        };
        let k: &[&str] = &["continuousModeProperties"];
        assert(key_views(k@) =~= seq!["continuousModeProperties"@]);
        let continuous_mode_properties = match opt_shape::<ContinuousBackupProperties>(j, k) {
            Ok(v) => v,
            Err(e) => {
                return Err(e);
            },
        };
        Ok(BackupPolicy {
            backup_type,
            migration_state,
            periodic_mode_properties,
            continuous_mode_properties,
        })
    }

    fn to_json(&self) -> (r: JsonValue) {
        let mut es: Vec<(String, JsonValue)> = Vec::new();
        es.push((String::from_str("type"), str_json(&self.backup_type)));
        es.push((String::from_str("migrationState"), opt_str_json(&self.migration_state)));
        es.push((String::from_str("periodicModeProperties"), opt_shape_json(&self.periodic_mode_properties)));
        es.push((String::from_str("continuousModeProperties"), opt_shape_json(&self.continuous_mode_properties)));
        assert(names_of(es@) =~= backup_policy_member_names());
        JsonValue::Object(es)
    }

    proof fn lemma_encoding_decodes(&self, j: JsonValue) {
        reveal_strlit("continuousModeProperties");
        reveal_strlit("migrationState");
        reveal_strlit("periodicModeProperties");
        reveal_strlit("type");
        let es = j->Object_0@;
        let names = backup_policy_member_names();
        assert("continuousModeProperties"@.len() == 24);
        assert("migrationState"@.len() == 14);
        assert("periodicModeProperties"@.len() == 22);
        assert("type"@.len() == 4);
        lemma_field_at(j, names, seq!["type"@], 0);
        lemma_req_str(self.backup_type, es[0].1);
        lemma_field_at(j, names, seq!["migrationState"@], 1);
        lemma_opt_str(self.migration_state, es[1].1);
        lemma_field_at(j, names, seq!["periodicModeProperties"@], 2);
        lemma_opt_shape(self.periodic_mode_properties, es[2].1);
        lemma_field_at(j, names, seq!["continuousModeProperties"@], 3);
        lemma_opt_shape(self.continuous_mode_properties, es[3].1);
    }
}

/// Periodic backup properties
#[derive(Debug, Clone)]
pub struct PeriodicBackupProperties {
    /// Backup interval in minutes
    pub backup_interval_in_minutes: Option<i32>,
    /// Backup retention interval in hours
    pub backup_retention_interval_in_hours: Option<i32>,
    /// Backup storage redundancy
    pub backup_storage_redundancy: Option<String>,
}

/// The member names of the JSON form of [`PeriodicBackupProperties`], in order.
pub open spec fn periodic_backup_properties_member_names() -> Seq<Seq<char>> {
    Seq::empty()
        .push("backupIntervalInMinutes"@)
        .push("backupRetentionIntervalInHours"@)
        .push("backupStorageRedundancy"@)
}

impl JsonShape for PeriodicBackupProperties {
    open spec fn decodable(j: JsonValue) -> bool {
        &&& j is Object
        &&& ok_opt_i32(field_of(j, seq!["backupIntervalInMinutes"@]))
        &&& ok_opt_i32(field_of(j, seq!["backupRetentionIntervalInHours"@]))
        &&& ok_opt_str(field_of(j, seq!["backupStorageRedundancy"@]))
    }

    open spec fn decodes(j: JsonValue, x: Self) -> bool {
        &&& j is Object
        &&& dec_opt_i32(field_of(j, seq!["backupIntervalInMinutes"@]), x.backup_interval_in_minutes)
        &&& dec_opt_i32(field_of(j, seq!["backupRetentionIntervalInHours"@]), x.backup_retention_interval_in_hours)
        &&& dec_opt_str(field_of(j, seq!["backupStorageRedundancy"@]), x.backup_storage_redundancy)
    }

    open spec fn encodes(&self, j: JsonValue) -> bool {
        &&& j is Object
        &&& names_of(j->Object_0@) == periodic_backup_properties_member_names()
        &&& enc_opt_i32(self.backup_interval_in_minutes, j->Object_0@[0].1)
        &&& enc_opt_i32(self.backup_retention_interval_in_hours, j->Object_0@[1].1)
        &&& enc_opt_str(self.backup_storage_redundancy, j->Object_0@[2].1)
    }

    fn from_json(j: &JsonValue) -> (r: Result<Self, AzureError>) {
        if !is_object(j) {
            return Err(not_an_object());
        }
        let k: &[&str] = &["backupIntervalInMinutes"];
        assert(key_views(k@) =~= seq!["backupIntervalInMinutes"@]);
        let backup_interval_in_minutes = match opt_i32(j, k) {
            Ok(v) => v,
            Err(e) => {
                return Err(e);
            },
        };
        let k: &[&str] = &["backupRetentionIntervalInHours"];
        assert(key_views(k@) =~= seq!["backupRetentionIntervalInHours"@]);
        let backup_retention_interval_in_hours = match opt_i32(j, k) {
            Ok(v) => v,
            Err(e) => {
                return Err(e);
            },
        };
        let k: &[&str] = &["backupStorageRedundancy"];
        assert(key_views(k@) =~= seq!["backupStorageRedundancy"@]);
        let backup_storage_redundancy = match opt_str(j, k) {
            Ok(v) => v,
            Err(e) => {
                return Err(e);
            },
        };
        Ok(PeriodicBackupProperties {
            backup_interval_in_minutes,
            backup_retention_interval_in_hours,
            backup_storage_redundancy,
        })
    }

    fn to_json(&self) -> (r: JsonValue) {
        let mut es: Vec<(String, JsonValue)> = Vec::new();
        es.push((String::from_str("backupIntervalInMinutes"), opt_i32_json(&self.backup_interval_in_minutes)));
        es.push((String::from_str("backupRetentionIntervalInHours"), opt_i32_json(&self.backup_retention_interval_in_hours)));
        es.push((String::from_str("backupStorageRedundancy"), opt_str_json(&self.backup_storage_redundancy)));
        assert(names_of(es@) =~= periodic_backup_properties_member_names());
        JsonValue::Object(es)
    }

    proof fn lemma_encoding_decodes(&self, j: JsonValue) {
        reveal_strlit("backupIntervalInMinutes");
        reveal_strlit("backupRetentionIntervalInHours");
        reveal_strlit("backupStorageRedundancy");
        let es = j->Object_0@;
        let names = periodic_backup_properties_member_names();
        assert("backupIntervalInMinutes"@.len() == 23);
        assert("backupRetentionIntervalInHours"@.len() == 30);
        assert("backupStorageRedundancy"@.len() == 23);
        assert("backupIntervalInMinutes"@[6] == 'I');
        assert("backupStorageRedundancy"@[6] == 'S');
        lemma_field_at(j, names, seq!["backupIntervalInMinutes"@], 0);
        lemma_opt_i32(self.backup_interval_in_minutes, es[0].1);
        lemma_field_at(j, names, seq!["backupRetentionIntervalInHours"@], 1);
        lemma_opt_i32(self.backup_retention_interval_in_hours, es[1].1);
        lemma_field_at(j, names, seq!["backupStorageRedundancy"@], 2);
        lemma_opt_str(self.backup_storage_redundancy, es[2].1);
    }
}

/// Continuous backup properties
#[derive(Debug, Clone)]
pub struct ContinuousBackupProperties {
    /// Continuous backup tier (e.g., Continuous7Days, Continuous30Days)
    pub tier: Option<String>,
}

/// The member names of the JSON form of [`ContinuousBackupProperties`], in order.
pub open spec fn continuous_backup_properties_member_names() -> Seq<Seq<char>> {
    Seq::empty()
        .push("tier"@)
}

impl JsonShape for ContinuousBackupProperties {
    open spec fn decodable(j: JsonValue) -> bool {
        &&& j is Object
        &&& ok_opt_str(field_of(j, seq!["tier"@]))
    }

    open spec fn decodes(j: JsonValue, x: Self) -> bool {
        &&& j is Object
        &&& dec_opt_str(field_of(j, seq!["tier"@]), x.tier)
    }

    open spec fn encodes(&self, j: JsonValue) -> bool {
        &&& j is Object
        &&& names_of(j->Object_0@) == continuous_backup_properties_member_names()
        &&& enc_opt_str(self.tier, j->Object_0@[0].1)
    }

    fn from_json(j: &JsonValue) -> (r: Result<Self, AzureError>) {
        if !is_object(j) {
            return Err(not_an_object());
        }
        let k: &[&str] = &["tier"];
        assert(key_views(k@) =~= seq!["tier"@]);
        let tier = match opt_str(j, k) {
            Ok(v) => v,
            Err(e) => {
                return Err(e);
            },
        };
        Ok(ContinuousBackupProperties { tier })
    }

    fn to_json(&self) -> (r: JsonValue) {
        let mut es: Vec<(String, JsonValue)> = Vec::new();
        es.push((String::from_str("tier"), opt_str_json(&self.tier)));
        assert(names_of(es@) =~= continuous_backup_properties_member_names());
        JsonValue::Object(es)
    }

    proof fn lemma_encoding_decodes(&self, j: JsonValue) {
        reveal_strlit("tier");
        let es = j->Object_0@;
        let names = continuous_backup_properties_member_names();
        assert("tier"@.len() == 4);
        lemma_field_at(j, names, seq!["tier"@], 0);
        lemma_opt_str(self.tier, es[0].1);
    }
}

/// Failover policy
#[derive(Debug, Clone)]
pub struct FailoverPolicy {
    /// Failover priority
    pub failover_priority: i32,
    /// Location ID
    pub id: Option<String>,
    /// Location name
    pub location_name: String,
}

/// The member names of the JSON form of [`FailoverPolicy`], in order.
pub open spec fn failover_policy_member_names() -> Seq<Seq<char>> {
    Seq::empty()
        .push("failoverPriority"@)
        .push("id"@)
        .push("locationName"@)
}

impl JsonShape for FailoverPolicy {
    open spec fn decodable(j: JsonValue) -> bool {
        &&& j is Object
        &&& ok_req_i32(field_of(j, seq!["failoverPriority"@]))
        &&& ok_opt_str(field_of(j, seq!["id"@]))
        &&& ok_req_str(field_of(j, seq!["locationName"@]))
    }

    open spec fn decodes(j: JsonValue, x: Self) -> bool {
        &&& j is Object
        &&& dec_req_i32(field_of(j, seq!["failoverPriority"@]), x.failover_priority)
        &&& dec_opt_str(field_of(j, seq!["id"@]), x.id)
        &&& dec_req_str(field_of(j, seq!["locationName"@]), x.location_name)
    }

    open spec fn encodes(&self, j: JsonValue) -> bool {
        &&& j is Object
        &&& names_of(j->Object_0@) == failover_policy_member_names()
        &&& enc_i32(self.failover_priority, j->Object_0@[0].1)
        &&& enc_opt_str(self.id, j->Object_0@[1].1)
        &&& enc_str(self.location_name, j->Object_0@[2].1)
    }

    fn from_json(j: &JsonValue) -> (r: Result<Self, AzureError>) {
        if !is_object(j) {
            return Err(not_an_object());
        }
        let k: &[&str] = &["failoverPriority"];
        assert(key_views(k@) =~= seq!["failoverPriority"@]);
        let failover_priority = match req_i32(j, k) {
            Ok(v) => v,
            Err(e) => {
                return Err(e);
            },
        };
        let k: &[&str] = &["id"];
        assert(key_views(k@) =~= seq!["id"@]);
        let id = match opt_str(j, k) {
            Ok(v) => v,
            Err(e) => {
                return Err(e);
            },
        };
        let k: &[&str] = &["locationName"];
        assert(key_views(k@) =~= seq!["locationName"@]);
        let location_name = match req_str(j, k) {
            Ok(v) => v,
            Err(e) => {
                return Err(e);
            },
        };
        Ok(FailoverPolicy { failover_priority, id, location_name })
    }

    fn to_json(&self) -> (r: JsonValue) {
        let mut es: Vec<(String, JsonValue)> = Vec::new();
        es.push((String::from_str("failoverPriority"), i32_json(&self.failover_priority)));
        es.push((String::from_str("id"), opt_str_json(&self.id)));
        es.push((String::from_str("locationName"), str_json(&self.location_name)));
        assert(names_of(es@) =~= failover_policy_member_names());
        JsonValue::Object(es)
    }

    proof fn lemma_encoding_decodes(&self, j: JsonValue) {
        reveal_strlit("failoverPriority");
        reveal_strlit("id");
        reveal_strlit("locationName");
        let es = j->Object_0@;
        let names = failover_policy_member_names();
        assert("failoverPriority"@.len() == 16);
        assert("id"@.len() == 2);
        assert("locationName"@.len() == 12);
        lemma_field_at(j, names, seq!["failoverPriority"@], 0);
        lemma_req_i32(self.failover_priority, es[0].1);
        lemma_field_at(j, names, seq!["id"@], 1);
        lemma_opt_str(self.id, es[1].1);
        lemma_field_at(j, names, seq!["locationName"@], 2);
        lemma_req_str(self.location_name, es[2].1);
    }
}

/// Account identity
#[derive(Debug, Clone)]
pub struct AccountIdentity {
    /// Principal ID
    pub principal_id: Option<String>,
    /// Tenant ID
    pub tenant_id: Option<String>,
    /// Identity type
    pub identity_type: Option<String>,
    /// User assigned identities (name and value pairs)
    pub user_assigned_identities: Option<Vec<(String, JsonValue)>>,
}

/// The member names of the JSON form of [`AccountIdentity`], in order.
pub open spec fn account_identity_member_names() -> Seq<Seq<char>> {
    Seq::empty()
        .push("principalId"@)
        .push("tenantId"@)
        .push("type"@)
        .push("userAssignedIdentities"@)
}

impl JsonShape for AccountIdentity {
    open spec fn decodable(j: JsonValue) -> bool {
        &&& j is Object
        &&& ok_opt_str(field_of(j, seq!["principalId"@]))
        &&& ok_opt_str(field_of(j, seq!["tenantId"@]))
        &&& ok_opt_str(field_of(j, seq!["type"@]))
        &&& ok_opt_json_map(field_of(j, seq!["userAssignedIdentities"@]))
    }

    open spec fn decodes(j: JsonValue, x: Self) -> bool {
        &&& j is Object
        &&& dec_opt_str(field_of(j, seq!["principalId"@]), x.principal_id)
        &&& dec_opt_str(field_of(j, seq!["tenantId"@]), x.tenant_id)
        &&& dec_opt_str(field_of(j, seq!["type"@]), x.identity_type)
        &&& dec_opt_json_map(field_of(j, seq!["userAssignedIdentities"@]), x.user_assigned_identities)
    }

    open spec fn encodes(&self, j: JsonValue) -> bool {
        &&& j is Object
        &&& names_of(j->Object_0@) == account_identity_member_names()
        &&& enc_opt_str(self.principal_id, j->Object_0@[0].1)
        &&& enc_opt_str(self.tenant_id, j->Object_0@[1].1)
        &&& enc_opt_str(self.identity_type, j->Object_0@[2].1)
        &&& enc_opt_json_map(self.user_assigned_identities, j->Object_0@[3].1)
    }

    fn from_json(j: &JsonValue) -> (r: Result<Self, AzureError>) {
        if !is_object(j) {
            return Err(not_an_object());
        }
        let k: &[&str] = &["principalId"];
        assert(key_views(k@) =~= seq!["principalId"@]);
        let principal_id = match opt_str(j, k) {
            Ok(v) => v,
            Err(e) => {
                return Err(e);
            },
        };
        let k: &[&str] = &["tenantId"];
        assert(key_views(k@) =~= seq!["tenantId"@]);
        let tenant_id = match opt_str(j, k) {
            Ok(v) => v,
            Err(e) => {
                return Err(e);
            },
        };
        let k: &[&str] = &["type"];
        assert(key_views(k@) =~= seq!["type"@]);
        let identity_type = match opt_str(j, k) {
            Ok(v) => v,
            Err(e) => {
                return Err(e);
            },
        };
        let k: &[&str] = &["userAssignedIdentities"];
        assert(key_views(k@) =~= seq!["userAssignedIdentities"@]);
        let user_assigned_identities = match opt_json_map(j, k) {
            Ok(v) => v,
            Err(e) => {
                return Err(e);
            },
        };
        Ok(AccountIdentity { principal_id, tenant_id, identity_type, user_assigned_identities })
    }

    fn to_json(&self) -> (r: JsonValue) {
        let mut es: Vec<(String, JsonValue)> = Vec::new();
        es.push((String::from_str("principalId"), opt_str_json(&self.principal_id)));
        es.push((String::from_str("tenantId"), opt_str_json(&self.tenant_id)));
        es.push((String::from_str("type"), opt_str_json(&self.identity_type)));
        es.push((String::from_str("userAssignedIdentities"), opt_json_map_json(&self.user_assigned_identities)));
        assert(names_of(es@) =~= account_identity_member_names());
        JsonValue::Object(es)
    }

    proof fn lemma_encoding_decodes(&self, j: JsonValue) {
        reveal_strlit("principalId");
        reveal_strlit("tenantId");
        reveal_strlit("type");
        reveal_strlit("userAssignedIdentities");
        let es = j->Object_0@;
        let names = account_identity_member_names();
        assert("principalId"@.len() == 11);
        assert("tenantId"@.len() == 8);
        assert("type"@.len() == 4);
        assert("userAssignedIdentities"@.len() == 22);
        lemma_field_at(j, names, seq!["principalId"@], 0);
        lemma_opt_str(self.principal_id, es[0].1);
        lemma_field_at(j, names, seq!["tenantId"@], 1);
        lemma_opt_str(self.tenant_id, es[1].1);
        lemma_field_at(j, names, seq!["type"@], 2);
        lemma_opt_str(self.identity_type, es[2].1);
        lemma_field_at(j, names, seq!["userAssignedIdentities"@], 3);
        lemma_opt_json_map(self.user_assigned_identities, es[3].1);
    }
}

/// IP rule
#[derive(Debug, Clone)]
pub struct IpRule {
    /// IP address or range
    pub ip_address_or_range: String,
}

/// The member names of the JSON form of [`IpRule`], in order.
pub open spec fn ip_rule_member_names() -> Seq<Seq<char>> {
    Seq::empty()
        .push("ipAddressOrRange"@)
}

impl JsonShape for IpRule {
    open spec fn decodable(j: JsonValue) -> bool {
        &&& j is Object
        &&& ok_req_str(field_of(j, seq!["ipAddressOrRange"@]))
    }

    open spec fn decodes(j: JsonValue, x: Self) -> bool {
        &&& j is Object
        &&& dec_req_str(field_of(j, seq!["ipAddressOrRange"@]), x.ip_address_or_range)
    }

    open spec fn encodes(&self, j: JsonValue) -> bool {
        &&& j is Object
        &&& names_of(j->Object_0@) == ip_rule_member_names()
        &&& enc_str(self.ip_address_or_range, j->Object_0@[0].1)
    }

    fn from_json(j: &JsonValue) -> (r: Result<Self, AzureError>) {
        if !is_object(j) {
            return Err(not_an_object());
        }
        let k: &[&str] = &["ipAddressOrRange"];
        assert(key_views(k@) =~= seq!["ipAddressOrRange"@]);
        let ip_address_or_range = match req_str(j, k) {
            Ok(v) => v,
            Err(e) => {
                return Err(e);
            },
        };
        Ok(IpRule { ip_address_or_range })
    }

    fn to_json(&self) -> (r: JsonValue) {
        let mut es: Vec<(String, JsonValue)> = Vec::new();
        es.push((String::from_str("ipAddressOrRange"), str_json(&self.ip_address_or_range)));
        assert(names_of(es@) =~= ip_rule_member_names());
        JsonValue::Object(es)
    }

    proof fn lemma_encoding_decodes(&self, j: JsonValue) {
        reveal_strlit("ipAddressOrRange");
        let es = j->Object_0@;
        let names = ip_rule_member_names();
        assert("ipAddressOrRange"@.len() == 16);
        lemma_field_at(j, names, seq!["ipAddressOrRange"@], 0);
        lemma_req_str(self.ip_address_or_range, es[0].1);
    }
}

/// Keys metadata
#[derive(Debug, Clone)]
pub struct KeysMetadata {
    /// Primary master key
    pub primary_master_key: Option<KeyMetadata>,
    /// Primary readonly master key
    pub primary_readonly_master_key: Option<KeyMetadata>,
    /// Secondary master key
    pub secondary_master_key: Option<KeyMetadata>,
    /// Secondary readonly master key
    pub secondary_readonly_master_key: Option<KeyMetadata>,
}

/// The member names of the JSON form of [`KeysMetadata`], in order.
pub open spec fn keys_metadata_member_names() -> Seq<Seq<char>> {
    Seq::empty()
        .push("primaryMasterKey"@)
        .push("primaryReadonlyMasterKey"@)
        .push("secondaryMasterKey"@)
        .push("secondaryReadonlyMasterKey"@)
}

impl JsonShape for KeysMetadata {
    open spec fn decodable(j: JsonValue) -> bool {
        &&& j is Object
        &&& ok_opt_shape::<KeyMetadata>(field_of(j, seq!["primaryMasterKey"@]))
        &&& ok_opt_shape::<KeyMetadata>(field_of(j, seq!["primaryReadonlyMasterKey"@]))
        &&& ok_opt_shape::<KeyMetadata>(field_of(j, seq!["secondaryMasterKey"@]))
        &&& ok_opt_shape::<KeyMetadata>(field_of(j, seq!["secondaryReadonlyMasterKey"@]))
    }

    open spec fn decodes(j: JsonValue, x: Self) -> bool {
        &&& j is Object
        &&& dec_opt_shape(field_of(j, seq!["primaryMasterKey"@]), x.primary_master_key)
        &&& dec_opt_shape(field_of(j, seq!["primaryReadonlyMasterKey"@]), x.primary_readonly_master_key)
        &&& dec_opt_shape(field_of(j, seq!["secondaryMasterKey"@]), x.secondary_master_key)
        &&& dec_opt_shape(field_of(j, seq!["secondaryReadonlyMasterKey"@]), x.secondary_readonly_master_key)
    }

    open spec fn encodes(&self, j: JsonValue) -> bool {
        &&& j is Object
        &&& names_of(j->Object_0@) == keys_metadata_member_names()
        &&& enc_opt_shape(self.primary_master_key, j->Object_0@[0].1)
        &&& enc_opt_shape(self.primary_readonly_master_key, j->Object_0@[1].1)
        &&& enc_opt_shape(self.secondary_master_key, j->Object_0@[2].1)
        &&& enc_opt_shape(self.secondary_readonly_master_key, j->Object_0@[3].1)
    }

    fn from_json(j: &JsonValue) -> (r: Result<Self, AzureError>) {
        if !is_object(j) {
            return Err(not_an_object());
        }
        let k: &[&str] = &["primaryMasterKey"];
        assert(key_views(k@) =~= seq!["primaryMasterKey"@]);
        let primary_master_key = match opt_shape::<KeyMetadata>(j, k) {
            Ok(v) => v,
            Err(e) => {
                return Err(e);
            },
        };
        let k: &[&str] = &["primaryReadonlyMasterKey"];
        assert(key_views(k@) =~= seq!["primaryReadonlyMasterKey"@]);
        let primary_readonly_master_key = match opt_shape::<KeyMetadata>(j, k) {
            Ok(v) => v,
            Err(e) => {
                return Err(e);
            },
        };
        let k: &[&str] = &["secondaryMasterKey"];
        assert(key_views(k@) =~= seq!["secondaryMasterKey"@]);
        let secondary_master_key = match opt_shape::<KeyMetadata>(j, k) {
            Ok(v) => v,
            Err(e) => {
                return Err(e);
            },
        };
        let k: &[&str] = &["secondaryReadonlyMasterKey"];
        assert(key_views(k@) =~= seq!["secondaryReadonlyMasterKey"@]);
        let secondary_readonly_master_key = match opt_shape::<KeyMetadata>(j, k) {
            Ok(v) => v,
            Err(e) => {
                return Err(e);
            },
        };
        Ok(KeysMetadata {
            primary_master_key,
            primary_readonly_master_key,
            secondary_master_key,
            secondary_readonly_master_key,
        })
    }

    fn to_json(&self) -> (r: JsonValue) {
        let mut es: Vec<(String, JsonValue)> = Vec::new();
        es.push((String::from_str("primaryMasterKey"), opt_shape_json(&self.primary_master_key)));
        es.push((String::from_str("primaryReadonlyMasterKey"), opt_shape_json(&self.primary_readonly_master_key)));
        es.push((String::from_str("secondaryMasterKey"), opt_shape_json(&self.secondary_master_key)));
        es.push((String::from_str("secondaryReadonlyMasterKey"), opt_shape_json(&self.secondary_readonly_master_key)));
        assert(names_of(es@) =~= keys_metadata_member_names());
        JsonValue::Object(es)
    }

    proof fn lemma_encoding_decodes(&self, j: JsonValue) {
        reveal_strlit("primaryMasterKey");
        reveal_strlit("primaryReadonlyMasterKey");
        reveal_strlit("secondaryMasterKey");
        reveal_strlit("secondaryReadonlyMasterKey");
        let es = j->Object_0@;
        let names = keys_metadata_member_names();
        assert("primaryMasterKey"@.len() == 16);
        assert("primaryReadonlyMasterKey"@.len() == 24);
        assert("secondaryMasterKey"@.len() == 18);
        assert("secondaryReadonlyMasterKey"@.len() == 26);
        lemma_field_at(j, names, seq!["primaryMasterKey"@], 0);
        lemma_opt_shape(self.primary_master_key, es[0].1);
        lemma_field_at(j, names, seq!["primaryReadonlyMasterKey"@], 1);
        lemma_opt_shape(self.primary_readonly_master_key, es[1].1);
        lemma_field_at(j, names, seq!["secondaryMasterKey"@], 2);
        lemma_opt_shape(self.secondary_master_key, es[2].1);
        lemma_field_at(j, names, seq!["secondaryReadonlyMasterKey"@], 3);
        lemma_opt_shape(self.secondary_readonly_master_key, es[3].1);
    }
}

/// Key metadata
#[derive(Debug, Clone)]
pub struct KeyMetadata {
    /// Generation time
    pub generation_time: Option<String>,
}

/// The member names of the JSON form of [`KeyMetadata`], in order.
pub open spec fn key_metadata_member_names() -> Seq<Seq<char>> {
    Seq::empty()
        .push("generationTime"@)
}

impl JsonShape for KeyMetadata {
    open spec fn decodable(j: JsonValue) -> bool {
        &&& j is Object
        &&& ok_opt_str(field_of(j, seq!["generationTime"@]))
    }

    open spec fn decodes(j: JsonValue, x: Self) -> bool {
        &&& j is Object
        &&& dec_opt_str(field_of(j, seq!["generationTime"@]), x.generation_time)
    }

    open spec fn encodes(&self, j: JsonValue) -> bool {
        &&& j is Object
        &&& names_of(j->Object_0@) == key_metadata_member_names()
        &&& enc_opt_str(self.generation_time, j->Object_0@[0].1)
    }

    fn from_json(j: &JsonValue) -> (r: Result<Self, AzureError>) {
        if !is_object(j) {
            return Err(not_an_object());
        }
        let k: &[&str] = &["generationTime"];
        assert(key_views(k@) =~= seq!["generationTime"@]);
        let generation_time = match opt_str(j, k) {
            Ok(v) => v,
            Err(e) => {
                return Err(e);
            },
        };
        Ok(KeyMetadata { generation_time })
    }

    fn to_json(&self) -> (r: JsonValue) {
        let mut es: Vec<(String, JsonValue)> = Vec::new();
        es.push((String::from_str("generationTime"), opt_str_json(&self.generation_time)));
        assert(names_of(es@) =~= key_metadata_member_names());
        JsonValue::Object(es)
    }

    proof fn lemma_encoding_decodes(&self, j: JsonValue) {
        reveal_strlit("generationTime");
        let es = j->Object_0@;
        let names = key_metadata_member_names();
        assert("generationTime"@.len() == 14);
        lemma_field_at(j, names, seq!["generationTime"@], 0);
        lemma_opt_str(self.generation_time, es[0].1);
    }
}

/// Private endpoint connection
#[derive(Debug, Clone)]
pub struct PrivateEndpointConnection {
    /// Connection ID
    pub id: Option<String>,
    /// Connection name
    pub name: Option<String>,
    /// Connection type
    pub connection_type: Option<String>,
    /// Group ID
    pub group_id: Option<String>,
    /// Private endpoint
    pub private_endpoint: Option<PrivateEndpoint>,
    /// Private link service connection state
    pub private_link_service_connection_state: Option<PrivateLinkServiceConnectionState>,
    /// Provisioning state
    pub provisioning_state: Option<String>,
    /// Resource group
    pub resource_group: Option<String>,
}

/// The member names of the JSON form of [`PrivateEndpointConnection`], in order.
pub open spec fn private_endpoint_connection_member_names() -> Seq<Seq<char>> {
    Seq::empty()
        .push("id"@)
        .push("name"@)
        .push("type"@)
        .push("groupId"@)
        .push("privateEndpoint"@)
        .push("privateLinkServiceConnectionState"@)
        .push("provisioningState"@)
        .push("resourceGroup"@)
}

impl JsonShape for PrivateEndpointConnection {
    open spec fn decodable(j: JsonValue) -> bool {
        &&& j is Object
        &&& ok_opt_str(field_of(j, seq!["id"@]))
        &&& ok_opt_str(field_of(j, seq!["name"@]))
        &&& ok_opt_str(field_of(j, seq!["type"@]))
        &&& ok_opt_str(field_of(j, seq!["groupId"@]))
        &&& ok_opt_shape::<PrivateEndpoint>(field_of(j, seq!["privateEndpoint"@]))
        &&& ok_opt_shape::<PrivateLinkServiceConnectionState>(field_of(j, seq!["privateLinkServiceConnectionState"@]))
        &&& ok_opt_str(field_of(j, seq!["provisioningState"@]))
        &&& ok_opt_str(field_of(j, seq!["resourceGroup"@]))
    }

    open spec fn decodes(j: JsonValue, x: Self) -> bool {
        &&& j is Object
        &&& dec_opt_str(field_of(j, seq!["id"@]), x.id)
        &&& dec_opt_str(field_of(j, seq!["name"@]), x.name)
        &&& dec_opt_str(field_of(j, seq!["type"@]), x.connection_type)
        &&& dec_opt_str(field_of(j, seq!["groupId"@]), x.group_id)
        &&& dec_opt_shape(field_of(j, seq!["privateEndpoint"@]), x.private_endpoint)
        &&& dec_opt_shape(field_of(j, seq!["privateLinkServiceConnectionState"@]), x.private_link_service_connection_state)
        &&& dec_opt_str(field_of(j, seq!["provisioningState"@]), x.provisioning_state)
        &&& dec_opt_str(field_of(j, seq!["resourceGroup"@]), x.resource_group)
    }

    open spec fn encodes(&self, j: JsonValue) -> bool {
        &&& j is Object
        &&& names_of(j->Object_0@) == private_endpoint_connection_member_names()
        &&& enc_opt_str(self.id, j->Object_0@[0].1)
        &&& enc_opt_str(self.name, j->Object_0@[1].1)
        &&& enc_opt_str(self.connection_type, j->Object_0@[2].1)
        &&& enc_opt_str(self.group_id, j->Object_0@[3].1)
        &&& enc_opt_shape(self.private_endpoint, j->Object_0@[4].1)
        &&& enc_opt_shape(self.private_link_service_connection_state, j->Object_0@[5].1)
        &&& enc_opt_str(self.provisioning_state, j->Object_0@[6].1)
        &&& enc_opt_str(self.resource_group, j->Object_0@[7].1)
    }

    fn from_json(j: &JsonValue) -> (r: Result<Self, AzureError>) {
        if !is_object(j) {
            return Err(not_an_object());
        }
        let k: &[&str] = &["id"];
        assert(key_views(k@) =~= seq!["id"@]);
        let id = match opt_str(j, k) {
            Ok(v) => v,
            Err(e) => {
                return Err(e);
            },
        };
        let k: &[&str] = &["name"];
        assert(key_views(k@) =~= seq!["name"@]);
        let name = match opt_str(j, k) {
            Ok(v) => v,
            Err(e) => {
                return Err(e);
            },
        };
        let k: &[&str] = &["type"];
        assert(key_views(k@) =~= seq!["type"@]);
        let connection_type = match opt_str(j, k) {
            Ok(v) => v,
            Err(e) => {
                return Err(e);
            },
        };
        let k: &[&str] = &["groupId"];
        assert(key_views(k@) =~= seq!["groupId"@]);
        let group_id = match opt_str(j, k) {
            Ok(v) => v,
            Err(e) => {
                return Err(e);
            },
        };
        let k: &[&str] = &["privateEndpoint"];
        assert(key_views(k@) =~= seq!["privateEndpoint"@]);
        let private_endpoint = match opt_shape::<PrivateEndpoint>(j, k) {
            Ok(v) => v,
            Err(e) => {
                return Err(e);
            },
        };
        let k: &[&str] = &["privateLinkServiceConnectionState"];
        assert(key_views(k@) =~= seq!["privateLinkServiceConnectionState"@]);
        let private_link_service_connection_state = match opt_shape::<PrivateLinkServiceConnectionState>(j, k) {
            Ok(v) => v,
            Err(e) => {
                return Err(e);
            },
        };
        let k: &[&str] = &["provisioningState"];
        assert(key_views(k@) =~= seq!["provisioningState"@]);
        let provisioning_state = match opt_str(j, k) {
            Ok(v) => v,
            Err(e) => {
                return Err(e);
            },
        };
        let k: &[&str] = &["resourceGroup"];
        assert(key_views(k@) =~= seq!["resourceGroup"@]);
        let resource_group = match opt_str(j, k) {
            Ok(v) => v,
            Err(e) => {
                return Err(e);
            },
        };
        Ok(PrivateEndpointConnection {
            id,
            name,
            connection_type,
            group_id,
            private_endpoint,
            private_link_service_connection_state,
            provisioning_state,
            resource_group,
        })
    }

    fn to_json(&self) -> (r: JsonValue) {
        let mut es: Vec<(String, JsonValue)> = Vec::new();
        es.push((String::from_str("id"), opt_str_json(&self.id)));
        es.push((String::from_str("name"), opt_str_json(&self.name)));
        es.push((String::from_str("type"), opt_str_json(&self.connection_type)));
        es.push((String::from_str("groupId"), opt_str_json(&self.group_id)));
        es.push((String::from_str("privateEndpoint"), opt_shape_json(&self.private_endpoint)));
        es.push((String::from_str("privateLinkServiceConnectionState"), opt_shape_json(&self.private_link_service_connection_state)));
        es.push((String::from_str("provisioningState"), opt_str_json(&self.provisioning_state)));
        es.push((String::from_str("resourceGroup"), opt_str_json(&self.resource_group)));
        assert(names_of(es@) =~= private_endpoint_connection_member_names());
        JsonValue::Object(es)
    }

    proof fn lemma_encoding_decodes(&self, j: JsonValue) {
        reveal_strlit("groupId");
        reveal_strlit("id");
        reveal_strlit("name");
        reveal_strlit("privateEndpoint");
        reveal_strlit("privateLinkServiceConnectionState");
        reveal_strlit("provisioningState");
        reveal_strlit("resourceGroup");
        reveal_strlit("type");
        let es = j->Object_0@;
        let names = private_endpoint_connection_member_names();
        assert("groupId"@.len() == 7);
        assert("id"@.len() == 2);
        assert("name"@.len() == 4);
        assert("privateEndpoint"@.len() == 15);
        assert("privateLinkServiceConnectionState"@.len() == 33);
        assert("provisioningState"@.len() == 17);
        assert("resourceGroup"@.len() == 13);
        assert("type"@.len() == 4);
        assert("name"@[0] == 'n');
        assert("type"@[0] == 't');
        lemma_field_at(j, names, seq!["id"@], 0);
        lemma_opt_str(self.id, es[0].1);
        lemma_field_at(j, names, seq!["name"@], 1);
        lemma_opt_str(self.name, es[1].1);
        lemma_field_at(j, names, seq!["type"@], 2);
        lemma_opt_str(self.connection_type, es[2].1);
        lemma_field_at(j, names, seq!["groupId"@], 3);
        lemma_opt_str(self.group_id, es[3].1);
        lemma_field_at(j, names, seq!["privateEndpoint"@], 4);
        lemma_opt_shape(self.private_endpoint, es[4].1);
        lemma_field_at(j, names, seq!["privateLinkServiceConnectionState"@], 5);
        lemma_opt_shape(self.private_link_service_connection_state, es[5].1);
        lemma_field_at(j, names, seq!["provisioningState"@], 6);
        lemma_opt_str(self.provisioning_state, es[6].1);
        lemma_field_at(j, names, seq!["resourceGroup"@], 7);
        lemma_opt_str(self.resource_group, es[7].1);
    }
}

/// Private endpoint
#[derive(Debug, Clone)]
pub struct PrivateEndpoint {
    /// Private endpoint ID
    pub id: String,
    /// Resource group
    pub resource_group: Option<String>,
}

/// The member names of the JSON form of [`PrivateEndpoint`], in order.
pub open spec fn private_endpoint_member_names() -> Seq<Seq<char>> {
    Seq::empty()
        .push("id"@)
        .push("resourceGroup"@)
}

impl JsonShape for PrivateEndpoint {
    open spec fn decodable(j: JsonValue) -> bool {
        &&& j is Object
        &&& ok_req_str(field_of(j, seq!["id"@]))
        &&& ok_opt_str(field_of(j, seq!["resourceGroup"@]))
    }

    open spec fn decodes(j: JsonValue, x: Self) -> bool {
        &&& j is Object
        &&& dec_req_str(field_of(j, seq!["id"@]), x.id)
        &&& dec_opt_str(field_of(j, seq!["resourceGroup"@]), x.resource_group)
    }

    open spec fn encodes(&self, j: JsonValue) -> bool {
        &&& j is Object
        &&& names_of(j->Object_0@) == private_endpoint_member_names()
        &&& enc_str(self.id, j->Object_0@[0].1)
        &&& enc_opt_str(self.resource_group, j->Object_0@[1].1)
    }

    fn from_json(j: &JsonValue) -> (r: Result<Self, AzureError>) {
        if !is_object(j) {
            return Err(not_an_object());
        }
        let k: &[&str] = &["id"];
        assert(key_views(k@) =~= seq!["id"@]);
        let id = match req_str(j, k) {
            Ok(v) => v,
            Err(e) => {
                return Err(e);
            },
        };
        let k: &[&str] = &["resourceGroup"];
        assert(key_views(k@) =~= seq!["resourceGroup"@]);
        let resource_group = match opt_str(j, k) {
            Ok(v) => v,
            Err(e) => {
                return Err(e);
            },
        };
        Ok(PrivateEndpoint { id, resource_group })
    }

    fn to_json(&self) -> (r: JsonValue) {
        let mut es: Vec<(String, JsonValue)> = Vec::new();
        es.push((String::from_str("id"), str_json(&self.id)));
        es.push((String::from_str("resourceGroup"), opt_str_json(&self.resource_group)));
        assert(names_of(es@) =~= private_endpoint_member_names());
        JsonValue::Object(es)
    }

    proof fn lemma_encoding_decodes(&self, j: JsonValue) {
        reveal_strlit("id");
        reveal_strlit("resourceGroup");
        let es = j->Object_0@;
        let names = private_endpoint_member_names();
        assert("id"@.len() == 2);
        assert("resourceGroup"@.len() == 13);
        lemma_field_at(j, names, seq!["id"@], 0);
        lemma_req_str(self.id, es[0].1);
        lemma_field_at(j, names, seq!["resourceGroup"@], 1);
        lemma_opt_str(self.resource_group, es[1].1);
    }
}

/// Private link service connection state
#[derive(Debug, Clone)]
pub struct PrivateLinkServiceConnectionState {
    /// Actions required
    pub actions_required: Option<String>,
    /// Description
    pub description: Option<String>,
    /// Status
    pub status: Option<String>,
}

/// The member names of the JSON form of [`PrivateLinkServiceConnectionState`], in order.
pub open spec fn private_link_service_connection_state_member_names() -> Seq<Seq<char>> {
    Seq::empty()
        .push("actionsRequired"@)
        .push("description"@)
        .push("status"@)
}

impl JsonShape for PrivateLinkServiceConnectionState {
    open spec fn decodable(j: JsonValue) -> bool {
        &&& j is Object
        &&& ok_opt_str(field_of(j, seq!["actionsRequired"@]))
        &&& ok_opt_str(field_of(j, seq!["description"@]))
        &&& ok_opt_str(field_of(j, seq!["status"@]))
    }

    open spec fn decodes(j: JsonValue, x: Self) -> bool {
        &&& j is Object
        &&& dec_opt_str(field_of(j, seq!["actionsRequired"@]), x.actions_required)
        &&& dec_opt_str(field_of(j, seq!["description"@]), x.description)
        &&& dec_opt_str(field_of(j, seq!["status"@]), x.status)
    }

    open spec fn encodes(&self, j: JsonValue) -> bool {
        &&& j is Object
        &&& names_of(j->Object_0@) == private_link_service_connection_state_member_names()
        &&& enc_opt_str(self.actions_required, j->Object_0@[0].1)
        &&& enc_opt_str(self.description, j->Object_0@[1].1)
        &&& enc_opt_str(self.status, j->Object_0@[2].1)
    }

    fn from_json(j: &JsonValue) -> (r: Result<Self, AzureError>) {
        if !is_object(j) {
            return Err(not_an_object());
        }
        let k: &[&str] = &["actionsRequired"];
        assert(key_views(k@) =~= seq!["actionsRequired"@]);
        let actions_required = match opt_str(j, k) {
            Ok(v) => v,
            Err(e) => {
                return Err(e);
            },
        };
        let k: &[&str] = &["description"];
        assert(key_views(k@) =~= seq!["description"@]);
        let description = match opt_str(j, k) {
            Ok(v) => v,
            Err(e) => {
                return Err(e);
            },
        };
        let k: &[&str] = &["status"];
        assert(key_views(k@) =~= seq!["status"@]);
        let status = match opt_str(j, k) {
            Ok(v) => v,
            Err(e) => {
                return Err(e);
            },
        };
        Ok(PrivateLinkServiceConnectionState { actions_required, description, status })
    }

    fn to_json(&self) -> (r: JsonValue) {
        let mut es: Vec<(String, JsonValue)> = Vec::new();
        es.push((String::from_str("actionsRequired"), opt_str_json(&self.actions_required)));
        es.push((String::from_str("description"), opt_str_json(&self.description)));
        es.push((String::from_str("status"), opt_str_json(&self.status)));
        assert(names_of(es@) =~= private_link_service_connection_state_member_names());
        JsonValue::Object(es)
    }

    proof fn lemma_encoding_decodes(&self, j: JsonValue) {
        reveal_strlit("actionsRequired");
        reveal_strlit("description");
        reveal_strlit("status");
        let es = j->Object_0@;
        let names = private_link_service_connection_state_member_names();
        assert("actionsRequired"@.len() == 15);
        assert("description"@.len() == 11);
        assert("status"@.len() == 6);
        lemma_field_at(j, names, seq!["actionsRequired"@], 0);
        lemma_opt_str(self.actions_required, es[0].1);
        lemma_field_at(j, names, seq!["description"@], 1);
        lemma_opt_str(self.description, es[1].1);
        lemma_field_at(j, names, seq!["status"@], 2);
        lemma_opt_str(self.status, es[2].1);
    }
}

/// Restore parameters
#[derive(Debug, Clone)]
pub struct RestoreParameters {
    /// Restore mode
    pub restore_mode: Option<String>,
    /// Restore source
    pub restore_source: Option<String>,
    /// Restore timestamp in UTC
    pub restore_timestamp_in_utc: Option<String>,
}

/// The member names of the JSON form of [`RestoreParameters`], in order.
pub open spec fn restore_parameters_member_names() -> Seq<Seq<char>> {
    Seq::empty()
        .push("restoreMode"@)
        .push("restoreSource"@)
        .push("restoreTimestampInUtc"@)
}

impl JsonShape for RestoreParameters {
    open spec fn decodable(j: JsonValue) -> bool {
        &&& j is Object
        &&& ok_opt_str(field_of(j, seq!["restoreMode"@]))
        &&& ok_opt_str(field_of(j, seq!["restoreSource"@]))
        &&& ok_opt_str(field_of(j, seq!["restoreTimestampInUtc"@]))
    }

    open spec fn decodes(j: JsonValue, x: Self) -> bool {
        &&& j is Object
        &&& dec_opt_str(field_of(j, seq!["restoreMode"@]), x.restore_mode)
        &&& dec_opt_str(field_of(j, seq!["restoreSource"@]), x.restore_source)
        &&& dec_opt_str(field_of(j, seq!["restoreTimestampInUtc"@]), x.restore_timestamp_in_utc)
    }

    open spec fn encodes(&self, j: JsonValue) -> bool {
        &&& j is Object
        &&& names_of(j->Object_0@) == restore_parameters_member_names()
        &&& enc_opt_str(self.restore_mode, j->Object_0@[0].1)
        &&& enc_opt_str(self.restore_source, j->Object_0@[1].1)
        &&& enc_opt_str(self.restore_timestamp_in_utc, j->Object_0@[2].1)
    }

    fn from_json(j: &JsonValue) -> (r: Result<Self, AzureError>) {
        if !is_object(j) {
            return Err(not_an_object());
        }
        let k: &[&str] = &["restoreMode"];
        assert(key_views(k@) =~= seq!["restoreMode"@]);
        let restore_mode = match opt_str(j, k) {
            Ok(v) => v,
            Err(e) => {
                return Err(e);
            },
        };
        let k: &[&str] = &["restoreSource"];
        assert(key_views(k@) =~= seq!["restoreSource"@]);
        let restore_source = match opt_str(j, k) {
            Ok(v) => v,
            Err(e) => {
                return Err(e);
            },
        };
        let k: &[&str] = &["restoreTimestampInUtc"];
        assert(key_views(k@) =~= seq!["restoreTimestampInUtc"@]);
        let restore_timestamp_in_utc = match opt_str(j, k) {
            Ok(v) => v,
            Err(e) => {
                return Err(e);
            },
        };
        Ok(RestoreParameters { restore_mode, restore_source, restore_timestamp_in_utc })
    }

    fn to_json(&self) -> (r: JsonValue) {
        let mut es: Vec<(String, JsonValue)> = Vec::new();
        es.push((String::from_str("restoreMode"), opt_str_json(&self.restore_mode)));
        es.push((String::from_str("restoreSource"), opt_str_json(&self.restore_source)));
        es.push((String::from_str("restoreTimestampInUtc"), opt_str_json(&self.restore_timestamp_in_utc)));
        assert(names_of(es@) =~= restore_parameters_member_names());
        JsonValue::Object(es)
    }

    proof fn lemma_encoding_decodes(&self, j: JsonValue) {
        reveal_strlit("restoreMode");
        reveal_strlit("restoreSource");
        reveal_strlit("restoreTimestampInUtc");
        let es = j->Object_0@;
        let names = restore_parameters_member_names();
        assert("restoreMode"@.len() == 11);
        assert("restoreSource"@.len() == 13);
        assert("restoreTimestampInUtc"@.len() == 21);
        lemma_field_at(j, names, seq!["restoreMode"@], 0);
        lemma_opt_str(self.restore_mode, es[0].1);
        lemma_field_at(j, names, seq!["restoreSource"@], 1);
        lemma_opt_str(self.restore_source, es[1].1);
        lemma_field_at(j, names, seq!["restoreTimestampInUtc"@], 2);
        lemma_opt_str(self.restore_timestamp_in_utc, es[2].1);
    }
}

/// System data
#[derive(Debug, Clone)]
pub struct SystemData {
    /// Creation date
    pub created_at: Option<String>,
    /// Created by
    pub created_by: Option<String>,
    /// Created by type
    pub created_by_type: Option<String>,
    /// Last modification date
    pub last_modified_at: Option<String>,
    /// Last modified by
    pub last_modified_by: Option<String>,
    /// Last modified by type
    pub last_modified_by_type: Option<String>,
}

/// The member names of the JSON form of [`SystemData`], in order.
pub open spec fn system_data_member_names() -> Seq<Seq<char>> {
    Seq::empty()
        .push("createdAt"@)
        .push("createdBy"@)
        .push("createdByType"@)
        .push("lastModifiedAt"@)
        .push("lastModifiedBy"@)
        .push("lastModifiedByType"@)
}

impl JsonShape for SystemData {
    open spec fn decodable(j: JsonValue) -> bool {
        &&& j is Object
        &&& ok_opt_str(field_of(j, seq!["createdAt"@]))
        &&& ok_opt_str(field_of(j, seq!["createdBy"@]))
        &&& ok_opt_str(field_of(j, seq!["createdByType"@]))
        &&& ok_opt_str(field_of(j, seq!["lastModifiedAt"@]))
        &&& ok_opt_str(field_of(j, seq!["lastModifiedBy"@]))
        &&& ok_opt_str(field_of(j, seq!["lastModifiedByType"@]))
    }

    open spec fn decodes(j: JsonValue, x: Self) -> bool {
        &&& j is Object
        &&& dec_opt_str(field_of(j, seq!["createdAt"@]), x.created_at)
        &&& dec_opt_str(field_of(j, seq!["createdBy"@]), x.created_by)
        &&& dec_opt_str(field_of(j, seq!["createdByType"@]), x.created_by_type)
        &&& dec_opt_str(field_of(j, seq!["lastModifiedAt"@]), x.last_modified_at)
        &&& dec_opt_str(field_of(j, seq!["lastModifiedBy"@]), x.last_modified_by)
        &&& dec_opt_str(field_of(j, seq!["lastModifiedByType"@]), x.last_modified_by_type)
    }

    open spec fn encodes(&self, j: JsonValue) -> bool {
        &&& j is Object
        &&& names_of(j->Object_0@) == system_data_member_names()
        &&& enc_opt_str(self.created_at, j->Object_0@[0].1)
        &&& enc_opt_str(self.created_by, j->Object_0@[1].1)
        &&& enc_opt_str(self.created_by_type, j->Object_0@[2].1)
        &&& enc_opt_str(self.last_modified_at, j->Object_0@[3].1)
        &&& enc_opt_str(self.last_modified_by, j->Object_0@[4].1)
        &&& enc_opt_str(self.last_modified_by_type, j->Object_0@[5].1)
    }

    fn from_json(j: &JsonValue) -> (r: Result<Self, AzureError>) {
        if !is_object(j) {
            return Err(not_an_object());
        }
        let k: &[&str] = &["createdAt"];
        assert(key_views(k@) =~= seq!["createdAt"@]);
        let created_at = match opt_str(j, k) {
            Ok(v) => v,
            Err(e) => {
                return Err(e);
            },
        };
        let k: &[&str] = &["createdBy"];
        assert(key_views(k@) =~= seq!["createdBy"@]);
        let created_by = match opt_str(j, k) {
            Ok(v) => v,
            Err(e) => {
                return Err(e);
            },
        };
        let k: &[&str] = &["createdByType"];
        assert(key_views(k@) =~= seq!["createdByType"@]);
        let created_by_type = match opt_str(j, k) {
            Ok(v) => v,
            Err(e) => {
                return Err(e);
            },
        };
        let k: &[&str] = &["lastModifiedAt"];
        assert(key_views(k@) =~= seq!["lastModifiedAt"@]);
        let last_modified_at = match opt_str(j, k) {
            Ok(v) => v,
            Err(e) => {
                return Err(e);
            },
        };
        let k: &[&str] = &["lastModifiedBy"];
        assert(key_views(k@) =~= seq!["lastModifiedBy"@]);
        let last_modified_by = match opt_str(j, k) {
            Ok(v) => v,
            Err(e) => {
                return Err(e);
            },
        };
        let k: &[&str] = &["lastModifiedByType"];
        assert(key_views(k@) =~= seq!["lastModifiedByType"@]);
        let last_modified_by_type = match opt_str(j, k) {
            Ok(v) => v,
            Err(e) => {
                return Err(e);
            },
        };
        Ok(SystemData {
            created_at,
            created_by,
            created_by_type,
            last_modified_at,
            last_modified_by,
            last_modified_by_type,
        })
    }

    fn to_json(&self) -> (r: JsonValue) {
        let mut es: Vec<(String, JsonValue)> = Vec::new();
        es.push((String::from_str("createdAt"), opt_str_json(&self.created_at)));
        es.push((String::from_str("createdBy"), opt_str_json(&self.created_by)));
        es.push((String::from_str("createdByType"), opt_str_json(&self.created_by_type)));
        es.push((String::from_str("lastModifiedAt"), opt_str_json(&self.last_modified_at)));
        es.push((String::from_str("lastModifiedBy"), opt_str_json(&self.last_modified_by)));
        es.push((String::from_str("lastModifiedByType"), opt_str_json(&self.last_modified_by_type)));
        assert(names_of(es@) =~= system_data_member_names());
        JsonValue::Object(es)
    }

    proof fn lemma_encoding_decodes(&self, j: JsonValue) {
        reveal_strlit("createdAt");
        reveal_strlit("createdBy");
        reveal_strlit("createdByType");
        reveal_strlit("lastModifiedAt");
        reveal_strlit("lastModifiedBy");
        reveal_strlit("lastModifiedByType");
        let es = j->Object_0@;
        let names = system_data_member_names();
        assert("createdAt"@.len() == 9);
        assert("createdBy"@.len() == 9);
        assert("createdByType"@.len() == 13);
        assert("lastModifiedAt"@.len() == 14);
        assert("lastModifiedBy"@.len() == 14);
        assert("lastModifiedByType"@.len() == 18);
        assert("createdAt"@[7] == 'A');
        assert("createdBy"@[7] == 'B');
        assert("lastModifiedAt"@[12] == 'A');
        assert("lastModifiedBy"@[12] == 'B');
        lemma_field_at(j, names, seq!["createdAt"@], 0);
        lemma_opt_str(self.created_at, es[0].1);
        lemma_field_at(j, names, seq!["createdBy"@], 1);
        lemma_opt_str(self.created_by, es[1].1);
        lemma_field_at(j, names, seq!["createdByType"@], 2);
        lemma_opt_str(self.created_by_type, es[2].1);
        lemma_field_at(j, names, seq!["lastModifiedAt"@], 3);
        lemma_opt_str(self.last_modified_at, es[3].1);
        lemma_field_at(j, names, seq!["lastModifiedBy"@], 4);
        lemma_opt_str(self.last_modified_by, es[4].1);
        lemma_field_at(j, names, seq!["lastModifiedByType"@], 5);
        lemma_opt_str(self.last_modified_by_type, es[5].1);
    }
}

/// Virtual network rule
#[derive(Debug, Clone)]
pub struct VirtualNetworkRule {
    /// Virtual network ID
    pub id: String,
    /// Whether to ignore missing VNet service endpoint
    pub ignore_missing_vnet_service_endpoint: Option<bool>,
    /// Resource group
    pub resource_group: Option<String>,
}

/// The member names of the JSON form of [`VirtualNetworkRule`], in order.
pub open spec fn virtual_network_rule_member_names() -> Seq<Seq<char>> {
    Seq::empty()
        .push("id"@)
        .push("ignoreMissingVnetServiceEndpoint"@)
        .push("resourceGroup"@)
}

impl JsonShape for VirtualNetworkRule {
    open spec fn decodable(j: JsonValue) -> bool {
        &&& j is Object
        &&& ok_req_str(field_of(j, seq!["id"@]))
        &&& ok_opt_bool(field_of(j, seq!["ignoreMissingVnetServiceEndpoint"@]))
        &&& ok_opt_str(field_of(j, seq!["resourceGroup"@]))
    }

    open spec fn decodes(j: JsonValue, x: Self) -> bool {
        &&& j is Object
        &&& dec_req_str(field_of(j, seq!["id"@]), x.id)
        &&& dec_opt_bool(field_of(j, seq!["ignoreMissingVnetServiceEndpoint"@]), x.ignore_missing_vnet_service_endpoint)
        &&& dec_opt_str(field_of(j, seq!["resourceGroup"@]), x.resource_group)
    }

    open spec fn encodes(&self, j: JsonValue) -> bool {
        &&& j is Object
        &&& names_of(j->Object_0@) == virtual_network_rule_member_names()
        &&& enc_str(self.id, j->Object_0@[0].1)
        &&& enc_opt_bool(self.ignore_missing_vnet_service_endpoint, j->Object_0@[1].1)
        &&& enc_opt_str(self.resource_group, j->Object_0@[2].1)
    }

    fn from_json(j: &JsonValue) -> (r: Result<Self, AzureError>) {
        if !is_object(j) {
            return Err(not_an_object());
        }
        let k: &[&str] = &["id"];
        assert(key_views(k@) =~= seq!["id"@]);
        let id = match req_str(j, k) {
            Ok(v) => v,
            Err(e) => {
                return Err(e);
            },
        };
        let k: &[&str] = &["ignoreMissingVnetServiceEndpoint"];
        assert(key_views(k@) =~= seq!["ignoreMissingVnetServiceEndpoint"@]);
        let ignore_missing_vnet_service_endpoint = match opt_bool(j, k) {
            Ok(v) => v,
            Err(e) => {
                return Err(e);
            },
        };
        let k: &[&str] = &["resourceGroup"];
        assert(key_views(k@) =~= seq!["resourceGroup"@]);
        let resource_group = match opt_str(j, k) {
            Ok(v) => v,
            Err(e) => {
                return Err(e);
            },
        };
        Ok(VirtualNetworkRule { id, ignore_missing_vnet_service_endpoint, resource_group })
    }

    fn to_json(&self) -> (r: JsonValue) {
        let mut es: Vec<(String, JsonValue)> = Vec::new();
        es.push((String::from_str("id"), str_json(&self.id)));
        es.push((String::from_str("ignoreMissingVnetServiceEndpoint"), opt_bool_json(&self.ignore_missing_vnet_service_endpoint)));
        es.push((String::from_str("resourceGroup"), opt_str_json(&self.resource_group)));
        assert(names_of(es@) =~= virtual_network_rule_member_names());
        JsonValue::Object(es)
    }

    proof fn lemma_encoding_decodes(&self, j: JsonValue) {
        reveal_strlit("id");
        reveal_strlit("ignoreMissingVnetServiceEndpoint");
        reveal_strlit("resourceGroup");
        let es = j->Object_0@;
        let names = virtual_network_rule_member_names();
        assert("id"@.len() == 2);
        assert("ignoreMissingVnetServiceEndpoint"@.len() == 32);
        assert("resourceGroup"@.len() == 13);
        lemma_field_at(j, names, seq!["id"@], 0);
        lemma_req_str(self.id, es[0].1);
        lemma_field_at(j, names, seq!["ignoreMissingVnetServiceEndpoint"@], 1);
        lemma_opt_bool(self.ignore_missing_vnet_service_endpoint, es[1].1);
        lemma_field_at(j, names, seq!["resourceGroup"@], 2);
        lemma_opt_str(self.resource_group, es[2].1);
    }
}

/// Capacity settings
#[derive(Debug, Clone)]
pub struct CapacitySettings {
    /// Total provisioned throughput limit
    pub total_throughput_limit: Option<i32>,
}

/// The member names of the JSON form of [`CapacitySettings`], in order.
pub open spec fn capacity_settings_member_names() -> Seq<Seq<char>> {
    Seq::empty()
        .push("totalThroughputLimit"@)
}

impl JsonShape for CapacitySettings {
    open spec fn decodable(j: JsonValue) -> bool {
        &&& j is Object
        &&& ok_opt_i32(field_of(j, seq!["totalThroughputLimit"@]))
    }

    open spec fn decodes(j: JsonValue, x: Self) -> bool {
        &&& j is Object
        &&& dec_opt_i32(field_of(j, seq!["totalThroughputLimit"@]), x.total_throughput_limit)
    }

    open spec fn encodes(&self, j: JsonValue) -> bool {
        &&& j is Object
        &&& names_of(j->Object_0@) == capacity_settings_member_names()
        &&& enc_opt_i32(self.total_throughput_limit, j->Object_0@[0].1)
    }

    fn from_json(j: &JsonValue) -> (r: Result<Self, AzureError>) {
        if !is_object(j) {
            return Err(not_an_object());
        }
        let k: &[&str] = &["totalThroughputLimit"];
        assert(key_views(k@) =~= seq!["totalThroughputLimit"@]);
        let total_throughput_limit = match opt_i32(j, k) {
            Ok(v) => v,
            Err(e) => {
                return Err(e);
            },
        };
        Ok(CapacitySettings { total_throughput_limit })
    }

    fn to_json(&self) -> (r: JsonValue) {
        let mut es: Vec<(String, JsonValue)> = Vec::new();
        es.push((String::from_str("totalThroughputLimit"), opt_i32_json(&self.total_throughput_limit)));
        assert(names_of(es@) =~= capacity_settings_member_names());
        JsonValue::Object(es)
    }

    proof fn lemma_encoding_decodes(&self, j: JsonValue) {
        reveal_strlit("totalThroughputLimit");
        let es = j->Object_0@;
        let names = capacity_settings_member_names();
        assert("totalThroughputLimit"@.len() == 20);
        lemma_field_at(j, names, seq!["totalThroughputLimit"@], 0);
        lemma_opt_i32(self.total_throughput_limit, es[0].1);
    }
}

/// Consistency policy
#[derive(Debug, Clone)]
pub struct ConsistencyPolicy {
    /// Default consistency level
    pub default_consistency_level: String,
    /// Maximum tolerated staleness
    pub max_staleness_prefix: Option<i64>,
    /// Maximum staleness interval
    pub max_interval_in_seconds: Option<i32>,
}

/// The member names of the JSON form of [`ConsistencyPolicy`], in order.
pub open spec fn consistency_policy_member_names() -> Seq<Seq<char>> {
    Seq::empty()
        .push("defaultConsistencyLevel"@)
        .push("maxStalenessPrefix"@)
        .push("maxIntervalInSeconds"@)
}

impl JsonShape for ConsistencyPolicy {
    open spec fn decodable(j: JsonValue) -> bool {
        &&& j is Object
        &&& ok_req_str(field_of(j, seq!["defaultConsistencyLevel"@]))
        &&& ok_opt_i64(field_of(j, seq!["maxStalenessPrefix"@]))
        &&& ok_opt_i32(field_of(j, seq!["maxIntervalInSeconds"@]))
    }

    open spec fn decodes(j: JsonValue, x: Self) -> bool {
        &&& j is Object
        &&& dec_req_str(field_of(j, seq!["defaultConsistencyLevel"@]), x.default_consistency_level)
        &&& dec_opt_i64(field_of(j, seq!["maxStalenessPrefix"@]), x.max_staleness_prefix)
        &&& dec_opt_i32(field_of(j, seq!["maxIntervalInSeconds"@]), x.max_interval_in_seconds)
    }

    open spec fn encodes(&self, j: JsonValue) -> bool {
        &&& j is Object
        &&& names_of(j->Object_0@) == consistency_policy_member_names()
        &&& enc_str(self.default_consistency_level, j->Object_0@[0].1)
        &&& enc_opt_i64(self.max_staleness_prefix, j->Object_0@[1].1)
        &&& enc_opt_i32(self.max_interval_in_seconds, j->Object_0@[2].1)
    }

    fn from_json(j: &JsonValue) -> (r: Result<Self, AzureError>) {
        if !is_object(j) {
            return Err(not_an_object());
        }
        let k: &[&str] = &["defaultConsistencyLevel"];
        assert(key_views(k@) =~= seq!["defaultConsistencyLevel"@]);
        let default_consistency_level = match req_str(j, k) {
            Ok(v) => v,
            Err(e) => {
                return Err(e);
            },
        };
        let k: &[&str] = &["maxStalenessPrefix"];
        assert(key_views(k@) =~= seq!["maxStalenessPrefix"@]);
        let max_staleness_prefix = match opt_i64(j, k) {
            Ok(v) => v,
            Err(e) => {
                return Err(e);
            },
        };
        let k: &[&str] = &["maxIntervalInSeconds"];
        assert(key_views(k@) =~= seq!["maxIntervalInSeconds"@]);
        let max_interval_in_seconds = match opt_i32(j, k) {
            Ok(v) => v,
            Err(e) => {
                return Err(e);
            },
        };
        Ok(ConsistencyPolicy {
            default_consistency_level,
            max_staleness_prefix,
            max_interval_in_seconds,
        })
    }

    fn to_json(&self) -> (r: JsonValue) {
        let mut es: Vec<(String, JsonValue)> = Vec::new();
        es.push((String::from_str("defaultConsistencyLevel"), str_json(&self.default_consistency_level)));
        es.push((String::from_str("maxStalenessPrefix"), opt_i64_json(&self.max_staleness_prefix)));
        es.push((String::from_str("maxIntervalInSeconds"), opt_i32_json(&self.max_interval_in_seconds)));
        assert(names_of(es@) =~= consistency_policy_member_names());
        JsonValue::Object(es)
    }

    proof fn lemma_encoding_decodes(&self, j: JsonValue) {
        reveal_strlit("defaultConsistencyLevel");
        reveal_strlit("maxIntervalInSeconds");
        reveal_strlit("maxStalenessPrefix");
        let es = j->Object_0@;
        let names = consistency_policy_member_names();
        assert("defaultConsistencyLevel"@.len() == 23);
        assert("maxIntervalInSeconds"@.len() == 20);
        assert("maxStalenessPrefix"@.len() == 18);
        lemma_field_at(j, names, seq!["defaultConsistencyLevel"@], 0);
        lemma_req_str(self.default_consistency_level, es[0].1);
        lemma_field_at(j, names, seq!["maxStalenessPrefix"@], 1);
        lemma_opt_i64(self.max_staleness_prefix, es[1].1);
        lemma_field_at(j, names, seq!["maxIntervalInSeconds"@], 2);
        lemma_opt_i32(self.max_interval_in_seconds, es[2].1);
    }
}

/// CORS policy
#[derive(Debug, Clone)]
pub struct CorsPolicy {
    /// Allowed origins
    pub allowed_origins: String,
    /// Allowed methods
    pub allowed_methods: String,
    /// Allowed headers
    pub allowed_headers: String,
    /// Exposed headers
    pub exposed_headers: String,
    /// Maximum age
    pub max_age_in_seconds: Option<i32>,
}

/// The member names of the JSON form of [`CorsPolicy`], in order.
pub open spec fn cors_policy_member_names() -> Seq<Seq<char>> {
    Seq::empty()
        .push("allowedOrigins"@)
        .push("allowedMethods"@)
        .push("allowedHeaders"@)
        .push("exposedHeaders"@)
        .push("maxAgeInSeconds"@)
}

impl JsonShape for CorsPolicy {
    open spec fn decodable(j: JsonValue) -> bool {
        &&& j is Object
        &&& ok_req_str(field_of(j, seq!["allowedOrigins"@]))
        &&& ok_req_str(field_of(j, seq!["allowedMethods"@]))
        &&& ok_req_str(field_of(j, seq!["allowedHeaders"@]))
        &&& ok_req_str(field_of(j, seq!["exposedHeaders"@]))
        &&& ok_opt_i32(field_of(j, seq!["maxAgeInSeconds"@]))
    }

    open spec fn decodes(j: JsonValue, x: Self) -> bool {
        &&& j is Object
        &&& dec_req_str(field_of(j, seq!["allowedOrigins"@]), x.allowed_origins)
        &&& dec_req_str(field_of(j, seq!["allowedMethods"@]), x.allowed_methods)
        &&& dec_req_str(field_of(j, seq!["allowedHeaders"@]), x.allowed_headers)
        &&& dec_req_str(field_of(j, seq!["exposedHeaders"@]), x.exposed_headers)
        &&& dec_opt_i32(field_of(j, seq!["maxAgeInSeconds"@]), x.max_age_in_seconds)
    }

    open spec fn encodes(&self, j: JsonValue) -> bool {
        &&& j is Object
        &&& names_of(j->Object_0@) == cors_policy_member_names()
        &&& enc_str(self.allowed_origins, j->Object_0@[0].1)
        &&& enc_str(self.allowed_methods, j->Object_0@[1].1)
        &&& enc_str(self.allowed_headers, j->Object_0@[2].1)
        &&& enc_str(self.exposed_headers, j->Object_0@[3].1)
        &&& enc_opt_i32(self.max_age_in_seconds, j->Object_0@[4].1)
    }

    fn from_json(j: &JsonValue) -> (r: Result<Self, AzureError>) {
        if !is_object(j) {
            return Err(not_an_object());
        }
        let k: &[&str] = &["allowedOrigins"];
        assert(key_views(k@) =~= seq!["allowedOrigins"@]);
        let allowed_origins = match req_str(j, k) {
            Ok(v) => v,
            Err(e) => {
                return Err(e);
            },
        };
        let k: &[&str] = &["allowedMethods"];
        assert(key_views(k@) =~= seq!["allowedMethods"@]);
        let allowed_methods = match req_str(j, k) {
            Ok(v) => v,
            Err(e) => {
                return Err(e);
            },
        };
        let k: &[&str] = &["allowedHeaders"];
        assert(key_views(k@) =~= seq!["allowedHeaders"@]);
        let allowed_headers = match req_str(j, k) {
            Ok(v) => v,
            Err(e) => {
                return Err(e);
            },
        };
        let k: &[&str] = &["exposedHeaders"];
        assert(key_views(k@) =~= seq!["exposedHeaders"@]);
        let exposed_headers = match req_str(j, k) {
            Ok(v) => v,
            Err(e) => {
                return Err(e);
            },
        };
        let k: &[&str] = &["maxAgeInSeconds"];
        assert(key_views(k@) =~= seq!["maxAgeInSeconds"@]);
        let max_age_in_seconds = match opt_i32(j, k) {
            Ok(v) => v,
            Err(e) => {
                return Err(e);
            },
        };
        Ok(CorsPolicy {
            allowed_origins,
            allowed_methods,
            allowed_headers,
            exposed_headers,
            max_age_in_seconds,
        })
    }

    fn to_json(&self) -> (r: JsonValue) {
        let mut es: Vec<(String, JsonValue)> = Vec::new();
        es.push((String::from_str("allowedOrigins"), str_json(&self.allowed_origins)));
        es.push((String::from_str("allowedMethods"), str_json(&self.allowed_methods)));
        es.push((String::from_str("allowedHeaders"), str_json(&self.allowed_headers)));
        es.push((String::from_str("exposedHeaders"), str_json(&self.exposed_headers)));
        es.push((String::from_str("maxAgeInSeconds"), opt_i32_json(&self.max_age_in_seconds)));
        assert(names_of(es@) =~= cors_policy_member_names());
        JsonValue::Object(es)
    }

    proof fn lemma_encoding_decodes(&self, j: JsonValue) {
        reveal_strlit("allowedHeaders");
        reveal_strlit("allowedMethods");
        reveal_strlit("allowedOrigins");
        reveal_strlit("exposedHeaders");
        reveal_strlit("maxAgeInSeconds");
        let es = j->Object_0@;
        let names = cors_policy_member_names();
        assert("allowedHeaders"@.len() == 14);
        assert("allowedMethods"@.len() == 14);
        assert("allowedOrigins"@.len() == 14);
        assert("exposedHeaders"@.len() == 14);
        assert("maxAgeInSeconds"@.len() == 15);
        assert("allowedOrigins"@[7] == 'O');
        assert("allowedMethods"@[7] == 'M');
        assert("allowedHeaders"@[7] == 'H');
        assert("allowedOrigins"@[0] == 'a');
        assert("exposedHeaders"@[0] == 'e');
        assert("allowedMethods"@[0] == 'a');
        assert("allowedHeaders"@[0] == 'a');
        lemma_field_at(j, names, seq!["allowedOrigins"@], 0);
        lemma_req_str(self.allowed_origins, es[0].1);
        lemma_field_at(j, names, seq!["allowedMethods"@], 1);
        lemma_req_str(self.allowed_methods, es[1].1);
        lemma_field_at(j, names, seq!["allowedHeaders"@], 2);
        lemma_req_str(self.allowed_headers, es[2].1);
        lemma_field_at(j, names, seq!["exposedHeaders"@], 3);
        lemma_req_str(self.exposed_headers, es[3].1);
        lemma_field_at(j, names, seq!["maxAgeInSeconds"@], 4);
        lemma_opt_i32(self.max_age_in_seconds, es[4].1);
    }
}

/// Account location
#[derive(Debug, Clone)]
pub struct AccountLocation {
    /// Location name
    pub location_name: String,
    /// Provisioning status
    pub provisioning_state: String,
    /// Failover status
    pub failover_priority: i32,
    /// Whether it's a write region
    pub is_zone_redundant: Option<bool>,
    /// Location ID
    pub id: Option<String>,
    /// Document endpoint URI
    pub document_endpoint: Option<String>,
}

/// The member names of the JSON form of [`AccountLocation`], in order.
pub open spec fn account_location_member_names() -> Seq<Seq<char>> {
    Seq::empty()
        .push("locationName"@)
        .push("provisioningState"@)
        .push("failoverPriority"@)
        .push("isZoneRedundant"@)
        .push("id"@)
        .push("documentEndpoint"@)
}

impl JsonShape for AccountLocation {
    open spec fn decodable(j: JsonValue) -> bool {
        &&& j is Object
        &&& ok_req_str(field_of(j, seq!["locationName"@]))
        &&& ok_req_str(field_of(j, seq!["provisioningState"@]))
        &&& ok_req_i32(field_of(j, seq!["failoverPriority"@]))
        &&& ok_opt_bool(field_of(j, seq!["isZoneRedundant"@]))
        &&& ok_opt_str(field_of(j, seq!["id"@]))
        &&& ok_opt_str(field_of(j, seq!["documentEndpoint"@]))
    }

    open spec fn decodes(j: JsonValue, x: Self) -> bool {
        &&& j is Object
        &&& dec_req_str(field_of(j, seq!["locationName"@]), x.location_name)
        &&& dec_req_str(field_of(j, seq!["provisioningState"@]), x.provisioning_state)
        &&& dec_req_i32(field_of(j, seq!["failoverPriority"@]), x.failover_priority)
        &&& dec_opt_bool(field_of(j, seq!["isZoneRedundant"@]), x.is_zone_redundant)
        &&& dec_opt_str(field_of(j, seq!["id"@]), x.id)
        &&& dec_opt_str(field_of(j, seq!["documentEndpoint"@]), x.document_endpoint)
    }

    open spec fn encodes(&self, j: JsonValue) -> bool {
        &&& j is Object
        &&& names_of(j->Object_0@) == account_location_member_names()
        &&& enc_str(self.location_name, j->Object_0@[0].1)
        &&& enc_str(self.provisioning_state, j->Object_0@[1].1)
        &&& enc_i32(self.failover_priority, j->Object_0@[2].1)
        &&& enc_opt_bool(self.is_zone_redundant, j->Object_0@[3].1)
        &&& enc_opt_str(self.id, j->Object_0@[4].1)
        &&& enc_opt_str(self.document_endpoint, j->Object_0@[5].1)
    }

    fn from_json(j: &JsonValue) -> (r: Result<Self, AzureError>) {
        if !is_object(j) {
            return Err(not_an_object());
        }
        let k: &[&str] = &["locationName"];
        assert(key_views(k@) =~= seq!["locationName"@]);
        let location_name = match req_str(j, k) {
            Ok(v) => v,
            Err(e) => {
                return Err(e);
            },
        };
        let k: &[&str] = &["provisioningState"];
        assert(key_views(k@) =~= seq!["provisioningState"@]);
        let provisioning_state = match req_str(j, k) {
            Ok(v) => v,
            Err(e) => {
                return Err(e);
            },
        };
        let k: &[&str] = &["failoverPriority"];
        assert(key_views(k@) =~= seq!["failoverPriority"@]);
        let failover_priority = match req_i32(j, k) {
            Ok(v) => v,
            Err(e) => {
                return Err(e);
            },
        };
        let k: &[&str] = &["isZoneRedundant"];
        assert(key_views(k@) =~= seq!["isZoneRedundant"@]);
        let is_zone_redundant = match opt_bool(j, k) {
            Ok(v) => v,
            Err(e) => {
                return Err(e);
            },
        };
        let k: &[&str] = &["id"];
        assert(key_views(k@) =~= seq!["id"@]);
        let id = match opt_str(j, k) {
            Ok(v) => v,
            Err(e) => {
                return Err(e);
            },
        };
        let k: &[&str] = &["documentEndpoint"];
        assert(key_views(k@) =~= seq!["documentEndpoint"@]);
        let document_endpoint = match opt_str(j, k) {
            Ok(v) => v,
            Err(e) => {
                return Err(e);
            },
        };
        Ok(AccountLocation {
            location_name,
            provisioning_state,
            failover_priority,
            is_zone_redundant,
            id,
            document_endpoint,
        })
    }

    fn to_json(&self) -> (r: JsonValue) {
        let mut es: Vec<(String, JsonValue)> = Vec::new();
        es.push((String::from_str("locationName"), str_json(&self.location_name)));
        es.push((String::from_str("provisioningState"), str_json(&self.provisioning_state)));
        es.push((String::from_str("failoverPriority"), i32_json(&self.failover_priority)));
        es.push((String::from_str("isZoneRedundant"), opt_bool_json(&self.is_zone_redundant)));
        es.push((String::from_str("id"), opt_str_json(&self.id)));
        es.push((String::from_str("documentEndpoint"), opt_str_json(&self.document_endpoint)));
        assert(names_of(es@) =~= account_location_member_names());
        JsonValue::Object(es)
    }

    proof fn lemma_encoding_decodes(&self, j: JsonValue) {
        reveal_strlit("documentEndpoint");
        reveal_strlit("failoverPriority");
        reveal_strlit("id");
        reveal_strlit("isZoneRedundant");
        reveal_strlit("locationName");
        reveal_strlit("provisioningState");
        let es = j->Object_0@;
        let names = account_location_member_names();
        assert("documentEndpoint"@.len() == 16);
        assert("failoverPriority"@.len() == 16);
        assert("id"@.len() == 2);
        assert("isZoneRedundant"@.len() == 15);
        assert("locationName"@.len() == 12);
        assert("provisioningState"@.len() == 17);
        assert("failoverPriority"@[0] == 'f');
        assert("documentEndpoint"@[0] == 'd');
        lemma_field_at(j, names, seq!["locationName"@], 0);
        lemma_req_str(self.location_name, es[0].1);
        lemma_field_at(j, names, seq!["provisioningState"@], 1);
        lemma_req_str(self.provisioning_state, es[1].1);
        lemma_field_at(j, names, seq!["failoverPriority"@], 2);
        lemma_req_i32(self.failover_priority, es[2].1);
        lemma_field_at(j, names, seq!["isZoneRedundant"@], 3);
        lemma_opt_bool(self.is_zone_redundant, es[3].1);
        lemma_field_at(j, names, seq!["id"@], 4);
        lemma_opt_str(self.id, es[4].1);
        lemma_field_at(j, names, seq!["documentEndpoint"@], 5);
        lemma_opt_str(self.document_endpoint, es[5].1);
    }
}

/// Cosmos DB Database information
#[derive(Debug, Clone)]
pub struct CosmosDatabase {
    /// Database name
    pub name: String,
    /// Database ID
    pub id: String,
    /// Throughput settings
    pub throughput_settings: Option<ThroughputSettings>,
}

/// The member names of the JSON form of [`CosmosDatabase`], in order.
pub open spec fn cosmos_database_member_names() -> Seq<Seq<char>> {
    Seq::empty()
        .push("name"@)
        .push("id"@)
        .push("throughputSettings"@)
}

impl JsonShape for CosmosDatabase {
    open spec fn decodable(j: JsonValue) -> bool {
        &&& j is Object
        &&& ok_req_str(field_of(j, seq!["name"@]))
        &&& ok_req_str(field_of(j, seq!["id"@]))
        &&& ok_opt_shape::<ThroughputSettings>(field_of(j, seq!["throughputSettings"@]))
    }

    open spec fn decodes(j: JsonValue, x: Self) -> bool {
        &&& j is Object
        &&& dec_req_str(field_of(j, seq!["name"@]), x.name)
        &&& dec_req_str(field_of(j, seq!["id"@]), x.id)
        &&& dec_opt_shape(field_of(j, seq!["throughputSettings"@]), x.throughput_settings)
    }

    open spec fn encodes(&self, j: JsonValue) -> bool {
        &&& j is Object
        &&& names_of(j->Object_0@) == cosmos_database_member_names()
        &&& enc_str(self.name, j->Object_0@[0].1)
        &&& enc_str(self.id, j->Object_0@[1].1)
        &&& enc_opt_shape(self.throughput_settings, j->Object_0@[2].1)
    }

    fn from_json(j: &JsonValue) -> (r: Result<Self, AzureError>) {
        if !is_object(j) {
            return Err(not_an_object());
        }
        let k: &[&str] = &["name"];
        assert(key_views(k@) =~= seq!["name"@]);
        let name = match req_str(j, k) {
            Ok(v) => v,
            Err(e) => {
                return Err(e);
            },
        };
        let k: &[&str] = &["id"];
        assert(key_views(k@) =~= seq!["id"@]);
        let id = match req_str(j, k) {
            Ok(v) => v,
            Err(e) => {
                return Err(e);
            },
        };
        let k: &[&str] = &["throughputSettings"];
        assert(key_views(k@) =~= seq!["throughputSettings"@]);
        let throughput_settings = match opt_shape::<ThroughputSettings>(j, k) {
            Ok(v) => v,
            Err(e) => {
                return Err(e);
            },
        };
        Ok(CosmosDatabase { name, id, throughput_settings })
    }

    fn to_json(&self) -> (r: JsonValue) {
        let mut es: Vec<(String, JsonValue)> = Vec::new();
        es.push((String::from_str("name"), str_json(&self.name)));
        es.push((String::from_str("id"), str_json(&self.id)));
        es.push((String::from_str("throughputSettings"), opt_shape_json(&self.throughput_settings)));
        assert(names_of(es@) =~= cosmos_database_member_names());
        JsonValue::Object(es)
    }

    proof fn lemma_encoding_decodes(&self, j: JsonValue) {
        reveal_strlit("id");
        reveal_strlit("name");
        reveal_strlit("throughputSettings");
        let es = j->Object_0@;
        let names = cosmos_database_member_names();
        assert("id"@.len() == 2);
        assert("name"@.len() == 4);
        assert("throughputSettings"@.len() == 18);
        lemma_field_at(j, names, seq!["name"@], 0);
        lemma_req_str(self.name, es[0].1);
        lemma_field_at(j, names, seq!["id"@], 1);
        lemma_req_str(self.id, es[1].1);
        lemma_field_at(j, names, seq!["throughputSettings"@], 2);
        lemma_opt_shape(self.throughput_settings, es[2].1);
    }
}

/// Throughput settings
#[derive(Debug, Clone)]
pub struct ThroughputSettings {
    /// Manual throughput
    pub throughput: Option<i32>,
    /// Autoscale settings
    pub autoscale_settings: Option<AutoscaleSettings>,
}

/// The member names of the JSON form of [`ThroughputSettings`], in order.
pub open spec fn throughput_settings_member_names() -> Seq<Seq<char>> {
    Seq::empty()
        .push("throughput"@)
        .push("autoscaleSettings"@)
}

impl JsonShape for ThroughputSettings {
    open spec fn decodable(j: JsonValue) -> bool {
        &&& j is Object
        &&& ok_opt_i32(field_of(j, seq!["throughput"@]))
        &&& ok_opt_shape::<AutoscaleSettings>(field_of(j, seq!["autoscaleSettings"@]))
    }

    open spec fn decodes(j: JsonValue, x: Self) -> bool {
        &&& j is Object
        &&& dec_opt_i32(field_of(j, seq!["throughput"@]), x.throughput)
        &&& dec_opt_shape(field_of(j, seq!["autoscaleSettings"@]), x.autoscale_settings)
    }

    open spec fn encodes(&self, j: JsonValue) -> bool {
        &&& j is Object
        &&& names_of(j->Object_0@) == throughput_settings_member_names()
        &&& enc_opt_i32(self.throughput, j->Object_0@[0].1)
        &&& enc_opt_shape(self.autoscale_settings, j->Object_0@[1].1)
    }

    fn from_json(j: &JsonValue) -> (r: Result<Self, AzureError>) {
        if !is_object(j) {
            return Err(not_an_object());
        }
        let k: &[&str] = &["throughput"];
        assert(key_views(k@) =~= seq!["throughput"@]);
        let throughput = match opt_i32(j, k) {
            Ok(v) => v,
            Err(e) => {
                return Err(e);
            },
        };
        let k: &[&str] = &["autoscaleSettings"];
        assert(key_views(k@) =~= seq!["autoscaleSettings"@]);
        let autoscale_settings = match opt_shape::<AutoscaleSettings>(j, k) {
            Ok(v) => v,
            Err(e) => {
                return Err(e);
            },
        };
        Ok(ThroughputSettings { throughput, autoscale_settings })
    }

    fn to_json(&self) -> (r: JsonValue) {
        let mut es: Vec<(String, JsonValue)> = Vec::new();
        es.push((String::from_str("throughput"), opt_i32_json(&self.throughput)));
        es.push((String::from_str("autoscaleSettings"), opt_shape_json(&self.autoscale_settings)));
        assert(names_of(es@) =~= throughput_settings_member_names());
        JsonValue::Object(es)
    }

    proof fn lemma_encoding_decodes(&self, j: JsonValue) {
        reveal_strlit("autoscaleSettings");
        reveal_strlit("throughput");
        let es = j->Object_0@;
        let names = throughput_settings_member_names();
        assert("autoscaleSettings"@.len() == 17);
        assert("throughput"@.len() == 10);
        lemma_field_at(j, names, seq!["throughput"@], 0);
        lemma_opt_i32(self.throughput, es[0].1);
        lemma_field_at(j, names, seq!["autoscaleSettings"@], 1);
        lemma_opt_shape(self.autoscale_settings, es[1].1);
    }
}

/// Autoscale settings
#[derive(Debug, Clone)]
pub struct AutoscaleSettings {
    /// Maximum throughput
    pub max_throughput: i32,
}

/// The member names of the JSON form of [`AutoscaleSettings`], in order.
pub open spec fn autoscale_settings_member_names() -> Seq<Seq<char>> {
    Seq::empty()
        .push("maxThroughput"@)
}

impl JsonShape for AutoscaleSettings {
    open spec fn decodable(j: JsonValue) -> bool {
        &&& j is Object
        &&& ok_req_i32(field_of(j, seq!["maxThroughput"@]))
    }

    open spec fn decodes(j: JsonValue, x: Self) -> bool {
        &&& j is Object
        &&& dec_req_i32(field_of(j, seq!["maxThroughput"@]), x.max_throughput)
    }

    open spec fn encodes(&self, j: JsonValue) -> bool {
        &&& j is Object
        &&& names_of(j->Object_0@) == autoscale_settings_member_names()
        &&& enc_i32(self.max_throughput, j->Object_0@[0].1)
    }

    fn from_json(j: &JsonValue) -> (r: Result<Self, AzureError>) {
        if !is_object(j) {
            return Err(not_an_object());
        }
        let k: &[&str] = &["maxThroughput"];
        assert(key_views(k@) =~= seq!["maxThroughput"@]);
        let max_throughput = match req_i32(j, k) {
            Ok(v) => v,
            Err(e) => {
                return Err(e);
            },
        };
        Ok(AutoscaleSettings { max_throughput })
    }

    fn to_json(&self) -> (r: JsonValue) {
        let mut es: Vec<(String, JsonValue)> = Vec::new();
        es.push((String::from_str("maxThroughput"), i32_json(&self.max_throughput)));
        assert(names_of(es@) =~= autoscale_settings_member_names());
        JsonValue::Object(es)
    }

    proof fn lemma_encoding_decodes(&self, j: JsonValue) {
        reveal_strlit("maxThroughput");
        let es = j->Object_0@;
        let names = autoscale_settings_member_names();
        assert("maxThroughput"@.len() == 13);
        lemma_field_at(j, names, seq!["maxThroughput"@], 0);
        lemma_req_i32(self.max_throughput, es[0].1);
    }
}

/// Cosmos DB Container information
#[derive(Debug, Clone)]
pub struct CosmosContainer {
    /// Container name
    pub name: String,
    /// Container ID
    pub id: String,
    /// Partition key
    pub partition_key: Option<PartitionKey>,
    /// Throughput settings
    pub throughput_settings: Option<ThroughputSettings>,
    /// Indexing policy
    pub indexing_policy: Option<IndexingPolicy>,
}

/// The member names of the JSON form of [`CosmosContainer`], in order.
pub open spec fn cosmos_container_member_names() -> Seq<Seq<char>> {
    Seq::empty()
        .push("name"@)
        .push("id"@)
        .push("partitionKey"@)
        .push("throughputSettings"@)
        .push("indexingPolicy"@)
}

impl JsonShape for CosmosContainer {
    open spec fn decodable(j: JsonValue) -> bool {
        &&& j is Object
        &&& ok_req_str(field_of(j, seq!["name"@]))
        &&& ok_req_str(field_of(j, seq!["id"@]))
        &&& ok_opt_shape::<PartitionKey>(field_of(j, seq!["partitionKey"@]))
        &&& ok_opt_shape::<ThroughputSettings>(field_of(j, seq!["throughputSettings"@]))
        &&& ok_opt_shape::<IndexingPolicy>(field_of(j, seq!["indexingPolicy"@]))
    }

    open spec fn decodes(j: JsonValue, x: Self) -> bool {
        &&& j is Object
        &&& dec_req_str(field_of(j, seq!["name"@]), x.name)
        &&& dec_req_str(field_of(j, seq!["id"@]), x.id)
        &&& dec_opt_shape(field_of(j, seq!["partitionKey"@]), x.partition_key)
        &&& dec_opt_shape(field_of(j, seq!["throughputSettings"@]), x.throughput_settings)
        &&& dec_opt_shape(field_of(j, seq!["indexingPolicy"@]), x.indexing_policy)
    }

    open spec fn encodes(&self, j: JsonValue) -> bool {
        &&& j is Object
        &&& names_of(j->Object_0@) == cosmos_container_member_names()
        &&& enc_str(self.name, j->Object_0@[0].1)
        &&& enc_str(self.id, j->Object_0@[1].1)
        &&& enc_opt_shape(self.partition_key, j->Object_0@[2].1)
        &&& enc_opt_shape(self.throughput_settings, j->Object_0@[3].1)
        &&& enc_opt_shape(self.indexing_policy, j->Object_0@[4].1)
    }

    fn from_json(j: &JsonValue) -> (r: Result<Self, AzureError>) {
        if !is_object(j) {
            return Err(not_an_object());
        }
        let k: &[&str] = &["name"];
        assert(key_views(k@) =~= seq!["name"@]);
        let name = match req_str(j, k) {
            Ok(v) => v,
            Err(e) => {
                return Err(e);
            },
        };
        let k: &[&str] = &["id"];
        assert(key_views(k@) =~= seq!["id"@]);
        let id = match req_str(j, k) {
            Ok(v) => v,
            Err(e) => {
                return Err(e);
            },
        };
        let k: &[&str] = &["partitionKey"];
        assert(key_views(k@) =~= seq!["partitionKey"@]);
        let partition_key = match opt_shape::<PartitionKey>(j, k) {
            Ok(v) => v,
            Err(e) => {
                return Err(e);
            },
        };
        let k: &[&str] = &["throughputSettings"];
        assert(key_views(k@) =~= seq!["throughputSettings"@]);
        let throughput_settings = match opt_shape::<ThroughputSettings>(j, k) {
            Ok(v) => v,
            Err(e) => {
                return Err(e);
            },
        };
        let k: &[&str] = &["indexingPolicy"];
        assert(key_views(k@) =~= seq!["indexingPolicy"@]);
        let indexing_policy = match opt_shape::<IndexingPolicy>(j, k) {
            Ok(v) => v,
            Err(e) => {
                return Err(e);
            },
        };
        Ok(CosmosContainer { name, id, partition_key, throughput_settings, indexing_policy })
    }

    fn to_json(&self) -> (r: JsonValue) {
        let mut es: Vec<(String, JsonValue)> = Vec::new();
        es.push((String::from_str("name"), str_json(&self.name)));
        es.push((String::from_str("id"), str_json(&self.id)));
        es.push((String::from_str("partitionKey"), opt_shape_json(&self.partition_key)));
        es.push((String::from_str("throughputSettings"), opt_shape_json(&self.throughput_settings)));
        es.push((String::from_str("indexingPolicy"), opt_shape_json(&self.indexing_policy)));
        assert(names_of(es@) =~= cosmos_container_member_names());
        JsonValue::Object(es)
    }

    proof fn lemma_encoding_decodes(&self, j: JsonValue) {
        reveal_strlit("id");
        reveal_strlit("indexingPolicy");
        reveal_strlit("name");
        reveal_strlit("partitionKey");
        reveal_strlit("throughputSettings");
        let es = j->Object_0@;
        let names = cosmos_container_member_names();
        assert("id"@.len() == 2);
        assert("indexingPolicy"@.len() == 14);
        assert("name"@.len() == 4);
        assert("partitionKey"@.len() == 12);
        assert("throughputSettings"@.len() == 18);
        lemma_field_at(j, names, seq!["name"@], 0);
        lemma_req_str(self.name, es[0].1);
        lemma_field_at(j, names, seq!["id"@], 1);
        lemma_req_str(self.id, es[1].1);
        lemma_field_at(j, names, seq!["partitionKey"@], 2);
        lemma_opt_shape(self.partition_key, es[2].1);
        lemma_field_at(j, names, seq!["throughputSettings"@], 3);
        lemma_opt_shape(self.throughput_settings, es[3].1);
        lemma_field_at(j, names, seq!["indexingPolicy"@], 4);
        lemma_opt_shape(self.indexing_policy, es[4].1);
    }
}

/// Partition key
#[derive(Debug, Clone)]
pub struct PartitionKey {
    /// Partition key paths
    pub paths: Vec<String>,
    /// Partition key type
    pub kind: String,
}

/// The member names of the JSON form of [`PartitionKey`], in order.
pub open spec fn partition_key_member_names() -> Seq<Seq<char>> {
    Seq::empty()
        .push("paths"@)
        .push("kind"@)
}

impl JsonShape for PartitionKey {
    open spec fn decodable(j: JsonValue) -> bool {
        &&& j is Object
        &&& ok_req_strs(field_of(j, seq!["paths"@]))
        &&& ok_req_str(field_of(j, seq!["kind"@]))
    }

    open spec fn decodes(j: JsonValue, x: Self) -> bool {
        &&& j is Object
        &&& dec_req_strs(field_of(j, seq!["paths"@]), x.paths)
        &&& dec_req_str(field_of(j, seq!["kind"@]), x.kind)
    }

    open spec fn encodes(&self, j: JsonValue) -> bool {
        &&& j is Object
        &&& names_of(j->Object_0@) == partition_key_member_names()
        &&& enc_strs(self.paths, j->Object_0@[0].1)
        &&& enc_str(self.kind, j->Object_0@[1].1)
    }

    fn from_json(j: &JsonValue) -> (r: Result<Self, AzureError>) {
        if !is_object(j) {
            return Err(not_an_object());
        }
        let k: &[&str] = &["paths"];
        assert(key_views(k@) =~= seq!["paths"@]);
        let paths = match req_strs(j, k) {
            Ok(v) => v,
            Err(e) => {
                return Err(e);
            },
        };
        let k: &[&str] = &["kind"];
        assert(key_views(k@) =~= seq!["kind"@]);
        let kind = match req_str(j, k) {
            Ok(v) => v,
            Err(e) => {
                return Err(e);
            },
        };
        Ok(PartitionKey { paths, kind })
    }

    fn to_json(&self) -> (r: JsonValue) {
        let mut es: Vec<(String, JsonValue)> = Vec::new();
        es.push((String::from_str("paths"), strs_json(&self.paths)));
        es.push((String::from_str("kind"), str_json(&self.kind)));
        assert(names_of(es@) =~= partition_key_member_names());
        JsonValue::Object(es)
    }

    proof fn lemma_encoding_decodes(&self, j: JsonValue) {
        reveal_strlit("kind");
        reveal_strlit("paths");
        let es = j->Object_0@;
        let names = partition_key_member_names();
        assert("kind"@.len() == 4);
        assert("paths"@.len() == 5);
        lemma_field_at(j, names, seq!["paths"@], 0);
        lemma_req_strs(self.paths, es[0].1);
        lemma_field_at(j, names, seq!["kind"@], 1);
        lemma_req_str(self.kind, es[1].1);
    }
}

/// Indexing policy
#[derive(Debug, Clone)]
pub struct IndexingPolicy {
    /// Whether automatic indexing is enabled
    pub automatic: Option<bool>,
    /// Indexing mode
    pub indexing_mode: Option<String>,
    /// Included paths
    pub included_paths: Option<Vec<IndexPath>>,
    /// Excluded paths
    pub excluded_paths: Option<Vec<IndexPath>>,
}

/// The member names of the JSON form of [`IndexingPolicy`], in order.
pub open spec fn indexing_policy_member_names() -> Seq<Seq<char>> {
    Seq::empty()
        .push("automatic"@)
        .push("indexingMode"@)
        .push("includedPaths"@)
        .push("excludedPaths"@)
}

impl JsonShape for IndexingPolicy {
    open spec fn decodable(j: JsonValue) -> bool {
        &&& j is Object
        &&& ok_opt_bool(field_of(j, seq!["automatic"@]))
        &&& ok_opt_str(field_of(j, seq!["indexingMode"@]))
        &&& ok_opt_shapes::<IndexPath>(field_of(j, seq!["includedPaths"@]))
        &&& ok_opt_shapes::<IndexPath>(field_of(j, seq!["excludedPaths"@]))
    }

    open spec fn decodes(j: JsonValue, x: Self) -> bool {
        &&& j is Object
        &&& dec_opt_bool(field_of(j, seq!["automatic"@]), x.automatic)
        &&& dec_opt_str(field_of(j, seq!["indexingMode"@]), x.indexing_mode)
        &&& dec_opt_shapes(field_of(j, seq!["includedPaths"@]), x.included_paths)
        &&& dec_opt_shapes(field_of(j, seq!["excludedPaths"@]), x.excluded_paths)
    }

    open spec fn encodes(&self, j: JsonValue) -> bool {
        &&& j is Object
        &&& names_of(j->Object_0@) == indexing_policy_member_names()
        &&& enc_opt_bool(self.automatic, j->Object_0@[0].1)
        &&& enc_opt_str(self.indexing_mode, j->Object_0@[1].1)
        &&& enc_opt_shapes(self.included_paths, j->Object_0@[2].1)
        &&& enc_opt_shapes(self.excluded_paths, j->Object_0@[3].1)
    }

    fn from_json(j: &JsonValue) -> (r: Result<Self, AzureError>) {
        if !is_object(j) {
            return Err(not_an_object());
        }
        let k: &[&str] = &["automatic"];
        assert(key_views(k@) =~= seq!["automatic"@]);
        let automatic = match opt_bool(j, k) {
            Ok(v) => v,
            Err(e) => {
                return Err(e);
            },
        };
        let k: &[&str] = &["indexingMode"];
        assert(key_views(k@) =~= seq!["indexingMode"@]);
        let indexing_mode = match opt_str(j, k) {
            Ok(v) => v,
            Err(e) => {
                return Err(e);
            },
        };
        let k: &[&str] = &["includedPaths"];
        assert(key_views(k@) =~= seq!["includedPaths"@]);
        let included_paths = match opt_shapes::<IndexPath>(j, k) {
            Ok(v) => v,
            Err(e) => {
                return Err(e);
            },
        };
        let k: &[&str] = &["excludedPaths"];
        assert(key_views(k@) =~= seq!["excludedPaths"@]);
        let excluded_paths = match opt_shapes::<IndexPath>(j, k) {
            Ok(v) => v,
            Err(e) => {
                return Err(e);
            },
        };
        Ok(IndexingPolicy { automatic, indexing_mode, included_paths, excluded_paths })
    }

    fn to_json(&self) -> (r: JsonValue) {
        let mut es: Vec<(String, JsonValue)> = Vec::new();
        es.push((String::from_str("automatic"), opt_bool_json(&self.automatic)));
        es.push((String::from_str("indexingMode"), opt_str_json(&self.indexing_mode)));
        es.push((String::from_str("includedPaths"), opt_shapes_json(&self.included_paths)));
        es.push((String::from_str("excludedPaths"), opt_shapes_json(&self.excluded_paths)));
        assert(names_of(es@) =~= indexing_policy_member_names());
        JsonValue::Object(es)
    }

    proof fn lemma_encoding_decodes(&self, j: JsonValue) {
        reveal_strlit("automatic");
        reveal_strlit("excludedPaths");
        reveal_strlit("includedPaths");
        reveal_strlit("indexingMode");
        let es = j->Object_0@;
        let names = indexing_policy_member_names();
        assert("automatic"@.len() == 9);
        assert("excludedPaths"@.len() == 13);
        assert("includedPaths"@.len() == 13);
        assert("indexingMode"@.len() == 12);
        assert("includedPaths"@[0] == 'i');
        assert("excludedPaths"@[0] == 'e');
        lemma_field_at(j, names, seq!["automatic"@], 0);
        lemma_opt_bool(self.automatic, es[0].1);
        lemma_field_at(j, names, seq!["indexingMode"@], 1);
        lemma_opt_str(self.indexing_mode, es[1].1);
        lemma_field_at(j, names, seq!["includedPaths"@], 2);
        lemma_opt_shapes(self.included_paths, es[2].1);
        lemma_field_at(j, names, seq!["excludedPaths"@], 3);
        lemma_opt_shapes(self.excluded_paths, es[3].1);
    }
}

/// Index path
#[derive(Debug, Clone)]
pub struct IndexPath {
    /// Path
    pub path: String,
}

/// The member names of the JSON form of [`IndexPath`], in order.
pub open spec fn index_path_member_names() -> Seq<Seq<char>> {
    Seq::empty()
        .push("path"@)
}

impl JsonShape for IndexPath {
    open spec fn decodable(j: JsonValue) -> bool {
        &&& j is Object
        &&& ok_req_str(field_of(j, seq!["path"@]))
    }

    open spec fn decodes(j: JsonValue, x: Self) -> bool {
        &&& j is Object
        &&& dec_req_str(field_of(j, seq!["path"@]), x.path)
    }

    open spec fn encodes(&self, j: JsonValue) -> bool {
        &&& j is Object
        &&& names_of(j->Object_0@) == index_path_member_names()
        &&& enc_str(self.path, j->Object_0@[0].1)
    }

    fn from_json(j: &JsonValue) -> (r: Result<Self, AzureError>) {
        if !is_object(j) {
            return Err(not_an_object());
        }
        let k: &[&str] = &["path"];
        assert(key_views(k@) =~= seq!["path"@]);
        let path = match req_str(j, k) {
            Ok(v) => v,
            Err(e) => {
                return Err(e);
            },
        };
        Ok(IndexPath { path })
    }

    fn to_json(&self) -> (r: JsonValue) {
        let mut es: Vec<(String, JsonValue)> = Vec::new();
        es.push((String::from_str("path"), str_json(&self.path)));
        assert(names_of(es@) =~= index_path_member_names());
        JsonValue::Object(es)
    }

    proof fn lemma_encoding_decodes(&self, j: JsonValue) {
        reveal_strlit("path");
        let es = j->Object_0@;
        let names = index_path_member_names();
        assert("path"@.len() == 4);
        lemma_field_at(j, names, seq!["path"@], 0);
        lemma_req_str(self.path, es[0].1);
    }
}

/// Cosmos Account access keys
#[derive(Debug, Clone)]
pub struct CosmosKeys {
    /// Primary master key
    pub primary_master_key: String,
    /// Secondary master key
    pub secondary_master_key: String,
    /// Primary readonly master key
    pub primary_readonly_master_key: String,
    /// Secondary readonly master key
    pub secondary_readonly_master_key: String,
}

/// The member names of the JSON form of [`CosmosKeys`], in order.
pub open spec fn cosmos_keys_member_names() -> Seq<Seq<char>> {
    Seq::empty()
        .push("primaryMasterKey"@)
        .push("secondaryMasterKey"@)
        .push("primaryReadonlyMasterKey"@)
        .push("secondaryReadonlyMasterKey"@)
}

impl JsonShape for CosmosKeys {
    open spec fn decodable(j: JsonValue) -> bool {
        &&& j is Object
        &&& ok_req_str(field_of(j, seq!["primaryMasterKey"@]))
        &&& ok_req_str(field_of(j, seq!["secondaryMasterKey"@]))
        &&& ok_req_str(field_of(j, seq!["primaryReadonlyMasterKey"@]))
        &&& ok_req_str(field_of(j, seq!["secondaryReadonlyMasterKey"@]))
    }

    open spec fn decodes(j: JsonValue, x: Self) -> bool {
        &&& j is Object
        &&& dec_req_str(field_of(j, seq!["primaryMasterKey"@]), x.primary_master_key)
        &&& dec_req_str(field_of(j, seq!["secondaryMasterKey"@]), x.secondary_master_key)
        &&& dec_req_str(field_of(j, seq!["primaryReadonlyMasterKey"@]), x.primary_readonly_master_key)
        &&& dec_req_str(field_of(j, seq!["secondaryReadonlyMasterKey"@]), x.secondary_readonly_master_key)
    }

    open spec fn encodes(&self, j: JsonValue) -> bool {
        &&& j is Object
        &&& names_of(j->Object_0@) == cosmos_keys_member_names()
        &&& enc_str(self.primary_master_key, j->Object_0@[0].1)
        &&& enc_str(self.secondary_master_key, j->Object_0@[1].1)
        &&& enc_str(self.primary_readonly_master_key, j->Object_0@[2].1)
        &&& enc_str(self.secondary_readonly_master_key, j->Object_0@[3].1)
    }

    fn from_json(j: &JsonValue) -> (r: Result<Self, AzureError>) {
        if !is_object(j) {
            return Err(not_an_object());
        }
        let k: &[&str] = &["primaryMasterKey"];
        assert(key_views(k@) =~= seq!["primaryMasterKey"@]);
        let primary_master_key = match req_str(j, k) {
            Ok(v) => v,
            Err(e) => {
                return Err(e);
            },
        };
        let k: &[&str] = &["secondaryMasterKey"];
        assert(key_views(k@) =~= seq!["secondaryMasterKey"@]);
        let secondary_master_key = match req_str(j, k) {
            Ok(v) => v,
            Err(e) => {
                return Err(e);
            },
        };
        let k: &[&str] = &["primaryReadonlyMasterKey"];
        assert(key_views(k@) =~= seq!["primaryReadonlyMasterKey"@]);
        let primary_readonly_master_key = match req_str(j, k) {
            Ok(v) => v,
            Err(e) => {
                return Err(e);
            },
        };
        let k: &[&str] = &["secondaryReadonlyMasterKey"];
        assert(key_views(k@) =~= seq!["secondaryReadonlyMasterKey"@]);
        let secondary_readonly_master_key = match req_str(j, k) {
            Ok(v) => v,
            Err(e) => {
                return Err(e);
            },
        };
        Ok(CosmosKeys {
            primary_master_key,
            secondary_master_key,
            primary_readonly_master_key,
            secondary_readonly_master_key,
        })
    }

    fn to_json(&self) -> (r: JsonValue) {
        let mut es: Vec<(String, JsonValue)> = Vec::new();
        es.push((String::from_str("primaryMasterKey"), str_json(&self.primary_master_key)));
        es.push((String::from_str("secondaryMasterKey"), str_json(&self.secondary_master_key)));
        es.push((String::from_str("primaryReadonlyMasterKey"), str_json(&self.primary_readonly_master_key)));
        es.push((String::from_str("secondaryReadonlyMasterKey"), str_json(&self.secondary_readonly_master_key)));
        assert(names_of(es@) =~= cosmos_keys_member_names());
        JsonValue::Object(es)
    }

    proof fn lemma_encoding_decodes(&self, j: JsonValue) {
        reveal_strlit("primaryMasterKey");
        reveal_strlit("primaryReadonlyMasterKey");
        reveal_strlit("secondaryMasterKey");
        reveal_strlit("secondaryReadonlyMasterKey");
        let es = j->Object_0@;
        let names = cosmos_keys_member_names();
        assert("primaryMasterKey"@.len() == 16);
        assert("primaryReadonlyMasterKey"@.len() == 24);
        assert("secondaryMasterKey"@.len() == 18);
        assert("secondaryReadonlyMasterKey"@.len() == 26);
        lemma_field_at(j, names, seq!["primaryMasterKey"@], 0);
        lemma_req_str(self.primary_master_key, es[0].1);
        lemma_field_at(j, names, seq!["secondaryMasterKey"@], 1);
        lemma_req_str(self.secondary_master_key, es[1].1);
        lemma_field_at(j, names, seq!["primaryReadonlyMasterKey"@], 2);
        lemma_req_str(self.primary_readonly_master_key, es[2].1);
        lemma_field_at(j, names, seq!["secondaryReadonlyMasterKey"@], 3);
        lemma_req_str(self.secondary_readonly_master_key, es[3].1);
    }
}

/// Cosmos Account connection strings
#[derive(Debug, Clone)]
pub struct CosmosConnectionStrings {
    /// Connection strings
    pub connection_strings: Vec<ConnectionString>,
}

/// The member names of the JSON form of [`CosmosConnectionStrings`], in order.
pub open spec fn cosmos_connection_strings_member_names() -> Seq<Seq<char>> {
    Seq::empty()
        .push("connectionStrings"@)
}

impl JsonShape for CosmosConnectionStrings {
    open spec fn decodable(j: JsonValue) -> bool {
        &&& j is Object
        &&& ok_req_shapes::<ConnectionString>(field_of(j, seq!["connectionStrings"@]))
    }

    open spec fn decodes(j: JsonValue, x: Self) -> bool {
        &&& j is Object
        &&& dec_req_shapes(field_of(j, seq!["connectionStrings"@]), x.connection_strings)
    }

    open spec fn encodes(&self, j: JsonValue) -> bool {
        &&& j is Object
        &&& names_of(j->Object_0@) == cosmos_connection_strings_member_names()
        &&& enc_shapes(self.connection_strings, j->Object_0@[0].1)
    }

    fn from_json(j: &JsonValue) -> (r: Result<Self, AzureError>) {
        if !is_object(j) {
            return Err(not_an_object());
        }
        let k: &[&str] = &["connectionStrings"];
        assert(key_views(k@) =~= seq!["connectionStrings"@]);
        let connection_strings = match req_shapes::<ConnectionString>(j, k) {
            Ok(v) => v,
            Err(e) => {
                return Err(e);
            },
        };
        Ok(CosmosConnectionStrings { connection_strings })
    }

    fn to_json(&self) -> (r: JsonValue) {
        let mut es: Vec<(String, JsonValue)> = Vec::new();
        es.push((String::from_str("connectionStrings"), shapes_json(&self.connection_strings)));
        assert(names_of(es@) =~= cosmos_connection_strings_member_names());
        JsonValue::Object(es)
    }

    proof fn lemma_encoding_decodes(&self, j: JsonValue) {
        reveal_strlit("connectionStrings");
        let es = j->Object_0@;
        let names = cosmos_connection_strings_member_names();
        assert("connectionStrings"@.len() == 17);
        lemma_field_at(j, names, seq!["connectionStrings"@], 0);
        lemma_req_shapes(self.connection_strings, es[0].1);
    }
}

/// Individual connection string
#[derive(Debug, Clone)]
pub struct ConnectionString {
    /// Connection description
    pub description: String,
    /// Connection string
    pub connection_string: String,
}

/// The member names of the JSON form of [`ConnectionString`], in order.
pub open spec fn connection_string_member_names() -> Seq<Seq<char>> {
    Seq::empty()
        .push("description"@)
        .push("connectionString"@)
}

impl JsonShape for ConnectionString {
    open spec fn decodable(j: JsonValue) -> bool {
        &&& j is Object
        &&& ok_req_str(field_of(j, seq!["description"@]))
        &&& ok_req_str(field_of(j, seq!["connectionString"@]))
    }

    open spec fn decodes(j: JsonValue, x: Self) -> bool {
        &&& j is Object
        &&& dec_req_str(field_of(j, seq!["description"@]), x.description)
        &&& dec_req_str(field_of(j, seq!["connectionString"@]), x.connection_string)
    }

    open spec fn encodes(&self, j: JsonValue) -> bool {
        &&& j is Object
        &&& names_of(j->Object_0@) == connection_string_member_names()
        &&& enc_str(self.description, j->Object_0@[0].1)
        &&& enc_str(self.connection_string, j->Object_0@[1].1)
    }

    fn from_json(j: &JsonValue) -> (r: Result<Self, AzureError>) {
        if !is_object(j) {
            return Err(not_an_object());
        }
        let k: &[&str] = &["description"];
        assert(key_views(k@) =~= seq!["description"@]);
        let description = match req_str(j, k) {
            Ok(v) => v,
            Err(e) => {
                return Err(e);
            },
        };
        let k: &[&str] = &["connectionString"];
        assert(key_views(k@) =~= seq!["connectionString"@]);
        let connection_string = match req_str(j, k) {
            Ok(v) => v,
            Err(e) => {
                return Err(e);
            },
        };
        Ok(ConnectionString { description, connection_string })
    }

    fn to_json(&self) -> (r: JsonValue) {
        let mut es: Vec<(String, JsonValue)> = Vec::new();
        es.push((String::from_str("description"), str_json(&self.description)));
        es.push((String::from_str("connectionString"), str_json(&self.connection_string)));
        assert(names_of(es@) =~= connection_string_member_names());
        JsonValue::Object(es)
    }

    proof fn lemma_encoding_decodes(&self, j: JsonValue) {
        reveal_strlit("connectionString");
        reveal_strlit("description");
        let es = j->Object_0@;
        let names = connection_string_member_names();
        assert("connectionString"@.len() == 16);
        assert("description"@.len() == 11);
        lemma_field_at(j, names, seq!["description"@], 0);
        lemma_req_str(self.description, es[0].1);
        lemma_field_at(j, names, seq!["connectionString"@], 1);
        lemma_req_str(self.connection_string, es[1].1);
    }
}

} // verus!
