//! Commands on subscriptions and resource groups, and the resource group
//! record that they print.

use vstd::prelude::*;
use crate::builder::{opt_view, subscription_tokens, tokens_of, AzCommandBuilder};
use crate::codec::{
    JsonShape,
    dec_opt_str,
    dec_opt_str_map,
    dec_req_shape,
    dec_req_str,
    enc_opt_str,
    enc_opt_str_map,
    enc_shape,
    enc_str,
    lemma_opt_str,
    lemma_opt_str_map,
    lemma_req_shape,
    lemma_req_str,
    ok_opt_str,
    ok_opt_str_map,
    ok_req_shape,
    ok_req_str,
    opt_str,
    opt_str_json,
    opt_str_map,
    opt_str_map_json,
    req_shape,
    req_str,
    shape_json,
    str_json,
};
use crate::error::AzureError;
use crate::json::{
    field_of, is_object, key_views, lemma_field_at, names_of, not_an_object, JsonValue,
};

verus! {

/// The tokens of the command that lists all subscriptions.
pub open spec fn list_subscriptions_tokens() -> Seq<Seq<char>> {
    seq!["account"@, "list"@]
}

/// The tokens of the command that shows the current subscription, or the one given.
pub open spec fn show_subscription_tokens(subscription_id: Option<&str>) -> Seq<Seq<char>> {
    seq!["account"@, "show"@] + subscription_tokens(opt_view(subscription_id))
}

/// The tokens of the command that makes a subscription the default.
pub open spec fn set_subscription_tokens(subscription_id: &str) -> Seq<Seq<char>> {
    seq!["account"@, "set"@, "--subscription"@, subscription_id@]
}

/// The tokens of the command that lists the available locations.
pub open spec fn list_locations_tokens(subscription_id: Option<&str>) -> Seq<Seq<char>> {
    seq!["account"@, "list-locations"@] + subscription_tokens(opt_view(subscription_id))
}

/// The tokens of the command that lists the resource groups.
pub open spec fn list_resource_groups_tokens(subscription_id: Option<&str>) -> Seq<Seq<char>> {
    seq!["group"@, "list"@] + subscription_tokens(opt_view(subscription_id))
}

/// The tokens of the command that shows one resource group.
pub open spec fn show_resource_group_tokens(
    name: &str,
    subscription_id: Option<&str>,
) -> Seq<Seq<char>> {
    seq!["group"@, "show"@, "--name"@, name@] + subscription_tokens(opt_view(subscription_id))
}

/// The tokens of the command that creates a resource group.
pub open spec fn create_resource_group_tokens(
    name: &str,
    location: &str,
    subscription_id: Option<&str>,
) -> Seq<Seq<char>> {
    seq!["group"@, "create"@, "--name"@, name@, "--location"@, location@] +
    subscription_tokens(opt_view(subscription_id))
}

/// The tokens of the command that deletes a resource group without asking for confirmation.
pub open spec fn delete_resource_group_tokens(
    name: &str,
    subscription_id: Option<&str>,
) -> Seq<Seq<char>> {
    seq!["group"@, "delete"@, "--name"@, name@, "--yes"@] +
    subscription_tokens(opt_view(subscription_id))
}

/// Resource Group properties
#[derive(Debug, Clone)]
pub struct ResourceGroupProperties {
    /// Provisioning status
    pub provisioning_state: String,
}

/// The member names of the JSON form of [`ResourceGroupProperties`], in order.
pub open spec fn resource_group_properties_member_names() -> Seq<Seq<char>> {
    Seq::empty()
        .push("provisioning_state"@)
}

impl JsonShape for ResourceGroupProperties {
    open spec fn decodable(j: JsonValue) -> bool {
        &&& j is Object
        &&& ok_req_str(field_of(j, seq!["provisioning_state"@, "provisioningState"@]))
    }

    open spec fn decodes(j: JsonValue, x: Self) -> bool {
        &&& j is Object
        &&& dec_req_str(field_of(j, seq!["provisioning_state"@, "provisioningState"@]), x.provisioning_state)
    }

    open spec fn encodes(&self, j: JsonValue) -> bool {
        &&& j is Object
        &&& names_of(j->Object_0@) == resource_group_properties_member_names()
        &&& enc_str(self.provisioning_state, j->Object_0@[0].1)
    }

    fn from_json(j: &JsonValue) -> (r: Result<Self, AzureError>) {
        if !is_object(j) {
            return Err(not_an_object());
        }
        let k: &[&str] = &["provisioning_state", "provisioningState"];
        assert(key_views(k@) =~= seq!["provisioning_state"@, "provisioningState"@]);
        let provisioning_state = match req_str(j, k) {
            Ok(v) => v,
            Err(e) => {
                return Err(e);
            },
        };
        Ok(ResourceGroupProperties { provisioning_state })
    }

    fn to_json(&self) -> (r: JsonValue) {
        let mut es: Vec<(String, JsonValue)> = Vec::new();
        es.push((String::from_str("provisioning_state"), str_json(&self.provisioning_state)));
        assert(names_of(es@) =~= resource_group_properties_member_names());
        JsonValue::Object(es)
    }

    proof fn lemma_encoding_decodes(&self, j: JsonValue) {
        reveal_strlit("provisioningState");
        reveal_strlit("provisioning_state");
        let es = j->Object_0@;
        let names = resource_group_properties_member_names();
        assert("provisioning_state"@.len() == 18);
        lemma_field_at(j, names, seq!["provisioning_state"@, "provisioningState"@], 0);
        lemma_req_str(self.provisioning_state, es[0].1);
    }
}

/// Resource Group information
#[derive(Debug, Clone)]
pub struct ResourceGroup {
    /// Resource group name
    pub name: String,
    /// Resource group location
    pub location: String,
    /// Resource group properties
    pub properties: ResourceGroupProperties,
    /// Associated tags (name and value pairs)
    pub tags: Option<Vec<(String, String)>>,
    /// Resource group ID
    pub id: String,
    /// Managed by (if applicable)
    pub managed_by: Option<String>,
}

/// The member names of the JSON form of [`ResourceGroup`], in order.
pub open spec fn resource_group_member_names() -> Seq<Seq<char>> {
    Seq::empty()
        .push("name"@)
        .push("location"@)
        .push("properties"@)
        .push("tags"@)
        .push("id"@)
        .push("managed_by"@)
}

impl JsonShape for ResourceGroup {
    open spec fn decodable(j: JsonValue) -> bool {
        &&& j is Object
        &&& ok_req_str(field_of(j, seq!["name"@]))
        &&& ok_req_str(field_of(j, seq!["location"@]))
        &&& ok_req_shape::<ResourceGroupProperties>(field_of(j, seq!["properties"@]))
        &&& ok_opt_str_map(field_of(j, seq!["tags"@]))
        &&& ok_req_str(field_of(j, seq!["id"@]))
        &&& ok_opt_str(field_of(j, seq!["managed_by"@, "managedBy"@]))
    }

    open spec fn decodes(j: JsonValue, x: Self) -> bool {
        &&& j is Object
        &&& dec_req_str(field_of(j, seq!["name"@]), x.name)
        &&& dec_req_str(field_of(j, seq!["location"@]), x.location)
        &&& dec_req_shape(field_of(j, seq!["properties"@]), x.properties)
        &&& dec_opt_str_map(field_of(j, seq!["tags"@]), x.tags)
        &&& dec_req_str(field_of(j, seq!["id"@]), x.id)
        &&& dec_opt_str(field_of(j, seq!["managed_by"@, "managedBy"@]), x.managed_by)
    }

    open spec fn encodes(&self, j: JsonValue) -> bool {
        &&& j is Object
        &&& names_of(j->Object_0@) == resource_group_member_names()
        &&& enc_str(self.name, j->Object_0@[0].1)
        &&& enc_str(self.location, j->Object_0@[1].1)
        &&& enc_shape(self.properties, j->Object_0@[2].1)
        &&& enc_opt_str_map(self.tags, j->Object_0@[3].1)
        &&& enc_str(self.id, j->Object_0@[4].1)
        &&& enc_opt_str(self.managed_by, j->Object_0@[5].1)
    }

    fn from_json(j: &JsonValue) -> (r: Result<Self, AzureError>) {
        if !is_object(j) {
            return Err(not_an_object());
        }
        let k: &[&str] = &["name"];
        assert(key_views(k@) =~= seq!["name"@]);
        let name = match req_str(j, k) {
            Ok(v) => v,
            Err(e) => {
                return Err(e);
            },
        };
        let k: &[&str] = &["location"];
        assert(key_views(k@) =~= seq!["location"@]);
        let location = match req_str(j, k) {
            Ok(v) => v,
            Err(e) => {
                return Err(e);
            },
        };
        let k: &[&str] = &["properties"];
        assert(key_views(k@) =~= seq!["properties"@]);
        let properties = match req_shape::<ResourceGroupProperties>(j, k) {
            Ok(v) => v,
            Err(e) => {
                return Err(e);
            },
        };
        let k: &[&str] = &["tags"];
        assert(key_views(k@) =~= seq!["tags"@]);
        let tags = match opt_str_map(j, k) {
            Ok(v) => v,
            Err(e) => {
                return Err(e);
            },
        };
        let k: &[&str] = &["id"];
        assert(key_views(k@) =~= seq!["id"@]);
        let id = match req_str(j, k) {
            Ok(v) => v,
            Err(e) => {
                return Err(e);
            },
        };
        let k: &[&str] = &["managed_by", "managedBy"];
        assert(key_views(k@) =~= seq!["managed_by"@, "managedBy"@]);
        let managed_by = match opt_str(j, k) {
            Ok(v) => v,
            Err(e) => {
                return Err(e);
            },
        };
        Ok(ResourceGroup { name, location, properties, tags, id, managed_by })
    }

    fn to_json(&self) -> (r: JsonValue) {
        let mut es: Vec<(String, JsonValue)> = Vec::new();
        es.push((String::from_str("name"), str_json(&self.name)));
        es.push((String::from_str("location"), str_json(&self.location)));
        es.push((String::from_str("properties"), shape_json(&self.properties)));
        es.push((String::from_str("tags"), opt_str_map_json(&self.tags)));
        es.push((String::from_str("id"), str_json(&self.id)));
        es.push((String::from_str("managed_by"), opt_str_json(&self.managed_by)));
        assert(names_of(es@) =~= resource_group_member_names());
        JsonValue::Object(es)
    }

    proof fn lemma_encoding_decodes(&self, j: JsonValue) {
        reveal_strlit("id");
        reveal_strlit("location");
        reveal_strlit("managedBy");
        reveal_strlit("managed_by");
        reveal_strlit("name");
        reveal_strlit("properties");
        reveal_strlit("tags");
        let es = j->Object_0@;
        let names = resource_group_member_names();
        assert("id"@.len() == 2);
        assert("location"@.len() == 8);
        assert("managed_by"@.len() == 10);
        assert("name"@.len() == 4);
        assert("properties"@.len() == 10);
        assert("tags"@.len() == 4);
        assert("name"@[0] == 'n');
        assert("tags"@[0] == 't');
        assert("properties"@[0] == 'p');
        assert("managed_by"@[0] == 'm');
        lemma_field_at(j, names, seq!["name"@], 0);
        lemma_req_str(self.name, es[0].1);
        lemma_field_at(j, names, seq!["location"@], 1);
        lemma_req_str(self.location, es[1].1);
        lemma_field_at(j, names, seq!["properties"@], 2);
        lemma_req_shape(self.properties, es[2].1);
        lemma_field_at(j, names, seq!["tags"@], 3);
        lemma_opt_str_map(self.tags, es[3].1);
        lemma_field_at(j, names, seq!["id"@], 4);
        lemma_req_str(self.id, es[4].1);
        lemma_field_at(j, names, seq!["managed_by"@, "managedBy"@], 5);
        lemma_opt_str(self.managed_by, es[5].1);
    }
}

/// The commands on subscriptions and resource groups.
pub struct AccountCommands;

impl AccountCommands {
    /// The command that lists all subscriptions.
    pub fn list_subscriptions() -> (r: Vec<String>)
        ensures
            tokens_of(r@) == list_subscriptions_tokens(),
    {
        let b = AzCommandBuilder::new()
            .subcommand("account")
            .subcommand("list");
        let r = b.build();
        assert(tokens_of(r@) =~= list_subscriptions_tokens());
        r
    }

    /// The command that shows the current subscription, or the one given.
    pub fn show_subscription(subscription_id: Option<&str>) -> (r: Vec<String>)
        ensures
            tokens_of(r@) == show_subscription_tokens(subscription_id),
    {
        let b = AzCommandBuilder::new()
            .subcommand("account")
            .subcommand("show")
            .subscription(subscription_id);
        let r = b.build();
        assert(tokens_of(r@) =~= show_subscription_tokens(subscription_id));
        r
    }

    /// The command that makes a subscription the default.
    pub fn set_subscription(subscription_id: &str) -> (r: Vec<String>)
        ensures
            tokens_of(r@) == set_subscription_tokens(subscription_id),
    {
        let b = AzCommandBuilder::new()
            .subcommand("account")
            .subcommand("set")
            .param("--subscription", subscription_id);
        let r = b.build();
        assert(tokens_of(r@) =~= set_subscription_tokens(subscription_id));
        r
    }

    /// The command that lists the available locations.
    pub fn list_locations(subscription_id: Option<&str>) -> (r: Vec<String>)
        ensures
            tokens_of(r@) == list_locations_tokens(subscription_id),
    {
        let b = AzCommandBuilder::new()
            .subcommand("account")
            .subcommand("list-locations")
            .subscription(subscription_id);
        let r = b.build();
        assert(tokens_of(r@) =~= list_locations_tokens(subscription_id));
        r
    }

    /// The command that lists the resource groups.
    pub fn list_resource_groups(subscription_id: Option<&str>) -> (r: Vec<String>)
        ensures
            tokens_of(r@) == list_resource_groups_tokens(subscription_id),
    {
        let b = AzCommandBuilder::new()
            .subcommand("group")
            .subcommand("list")
            .subscription(subscription_id);
        let r = b.build();
        assert(tokens_of(r@) =~= list_resource_groups_tokens(subscription_id));
        r
    }

    /// The command that shows one resource group.
    pub fn show_resource_group(name: &str, subscription_id: Option<&str>) -> (r: Vec<String>)
        ensures
            tokens_of(r@) == show_resource_group_tokens(name, subscription_id),
    {
        let b = AzCommandBuilder::new()
            .subcommand("group")
            .subcommand("show")
            .param("--name", name)
            .subscription(subscription_id);
        let r = b.build();
        assert(tokens_of(r@) =~= show_resource_group_tokens(name, subscription_id));
        r
    }

    /// The command that creates a resource group.
    pub fn create_resource_group(
        name: &str,
        location: &str,
        subscription_id: Option<&str>,
    ) -> (r: Vec<String>)
        ensures
            tokens_of(r@) == create_resource_group_tokens(name, location, subscription_id),
    {
        let b = AzCommandBuilder::new()
            .subcommand("group")
            .subcommand("create")
            .param("--name", name)
            .param("--location", location)
            .subscription(subscription_id);
        let r = b.build();
        assert(tokens_of(r@) =~= create_resource_group_tokens(name, location, subscription_id));
        r
    }

    /// The command that deletes a resource group without asking for confirmation.
    pub fn delete_resource_group(name: &str, subscription_id: Option<&str>) -> (r: Vec<String>)
        ensures
            tokens_of(r@) == delete_resource_group_tokens(name, subscription_id),
    {
        let b = AzCommandBuilder::new()
            .subcommand("group")
            .subcommand("delete")
            .param("--name", name)
            .flag("--yes")
            .subscription(subscription_id);
        let r = b.build();
        assert(tokens_of(r@) =~= delete_resource_group_tokens(name, subscription_id));
        r
    }
}

} // verus!
