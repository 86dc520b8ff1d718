//! Commands on Cosmos DB accounts and their databases and containers.

use vstd::prelude::*;
use crate::builder::{opt_view, optional_param_tokens, subscription_tokens, tokens_of, AzCommandBuilder};
use crate::commands::{
    append_failover, append_optional, append_optional_flag, append_optional_number,
    append_optional_repeated, failover_tokens, opt_decimal, optional_flag_tokens,
    optional_repeated_tokens,
};

verus! {

/// The tokens of the command that lists the Cosmos DB accounts, of one resource group when one is given.
pub open spec fn list_accounts_tokens(
    resource_group: Option<&str>,
    subscription_id: Option<&str>,
) -> Seq<Seq<char>> {
    seq!["cosmosdb"@, "list"@] +
    subscription_tokens(opt_view(subscription_id)) +
    optional_param_tokens("--resource-group"@, opt_view(resource_group))
}

/// The tokens of the command that shows one Cosmos DB account.
pub open spec fn show_account_tokens(
    name: &str,
    resource_group: &str,
    subscription_id: Option<&str>,
) -> Seq<Seq<char>> {
    seq!["cosmosdb"@, "show"@, "--name"@, name@, "--resource-group"@, resource_group@] +
    subscription_tokens(opt_view(subscription_id))
}

/// The tokens of the command that creates a Cosmos DB account.
pub open spec fn create_account_tokens(
    name: &str,
    resource_group: &str,
    location: &str,
    kind: Option<&str>,
    capabilities: Option<Vec<&str>>,
    enable_automatic_failover: Option<bool>,
    enable_multiple_write_locations: Option<bool>,
    subscription_id: Option<&str>,
) -> Seq<Seq<char>> {
    seq![
        "cosmosdb"@, "create"@,
        "--name"@, name@,
        "--resource-group"@, resource_group@,
        "--location"@, location@,
    ] +
    subscription_tokens(opt_view(subscription_id)) +
    optional_param_tokens("--kind"@, opt_view(kind)) +
    optional_repeated_tokens("--capabilities"@, capabilities) +
    optional_flag_tokens("--enable-automatic-failover"@, enable_automatic_failover) +
    optional_flag_tokens("--enable-multiple-write-locations"@, enable_multiple_write_locations)
}

/// The tokens of the command that updates a Cosmos DB account.
pub open spec fn update_account_tokens(
    name: &str,
    resource_group: &str,
    enable_automatic_failover: Option<bool>,
    enable_multiple_write_locations: Option<bool>,
    subscription_id: Option<&str>,
) -> Seq<Seq<char>> {
    seq!["cosmosdb"@, "update"@, "--name"@, name@, "--resource-group"@, resource_group@] +
    subscription_tokens(opt_view(subscription_id)) +
    optional_flag_tokens("--enable-automatic-failover"@, enable_automatic_failover) +
    optional_flag_tokens("--enable-multiple-write-locations"@, enable_multiple_write_locations)
}

/// The tokens of the command that deletes a Cosmos DB account without asking for confirmation.
pub open spec fn delete_account_tokens(
    name: &str,
    resource_group: &str,
    subscription_id: Option<&str>,
) -> Seq<Seq<char>> {
    seq![
        "cosmosdb"@, "delete"@,
        "--name"@, name@,
        "--resource-group"@, resource_group@,
        "--yes"@,
    ] +
    subscription_tokens(opt_view(subscription_id))
}

/// The tokens of the command that lists the access keys of an account.
pub open spec fn list_keys_tokens(
    account_name: &str,
    resource_group: &str,
    subscription_id: Option<&str>,
) -> Seq<Seq<char>> {
    seq![
        "cosmosdb"@, "keys"@, "list"@,
        "--name"@, account_name@,
        "--resource-group"@, resource_group@,
    ] +
    subscription_tokens(opt_view(subscription_id))
}

/// The tokens of the command that lists the read-only access keys of an account.
pub open spec fn list_read_only_keys_tokens(
    account_name: &str,
    resource_group: &str,
    subscription_id: Option<&str>,
) -> Seq<Seq<char>> {
    seq![
        "cosmosdb"@, "keys"@, "list"@,
        "--name"@, account_name@,
        "--resource-group"@, resource_group@,
        "--type"@, "read-only-keys"@,
    ] +
    subscription_tokens(opt_view(subscription_id))
}

/// The tokens of the command that regenerates one key of an account (`primary`, `secondary`, `primaryReadonly` or `secondaryReadonly`).
pub open spec fn regenerate_key_tokens(
    account_name: &str,
    resource_group: &str,
    key_kind: &str,
    subscription_id: Option<&str>,
) -> Seq<Seq<char>> {
    seq![
        "cosmosdb"@, "keys"@, "regenerate"@,
        "--name"@, account_name@,
        "--resource-group"@, resource_group@,
        "--key-kind"@, key_kind@,
    ] +
    subscription_tokens(opt_view(subscription_id))
}

/// The tokens of the command that lists the connection strings of an account.
pub open spec fn list_connection_strings_tokens(
    account_name: &str,
    resource_group: &str,
    subscription_id: Option<&str>,
) -> Seq<Seq<char>> {
    seq![
        "cosmosdb"@, "keys"@, "list"@,
        "--name"@, account_name@,
        "--resource-group"@, resource_group@,
        "--type"@, "connection-strings"@,
    ] +
    subscription_tokens(opt_view(subscription_id))
}

/// The tokens of the command that lists the SQL databases of an account.
pub open spec fn list_sql_databases_tokens(
    account_name: &str,
    resource_group: &str,
    subscription_id: Option<&str>,
) -> Seq<Seq<char>> {
    seq![
        "cosmosdb"@, "sql"@, "database"@, "list"@,
        "--account-name"@, account_name@,
        "--resource-group"@, resource_group@,
    ] +
    subscription_tokens(opt_view(subscription_id))
}

/// The tokens of the command that shows one SQL database.
pub open spec fn show_sql_database_tokens(
    account_name: &str,
    resource_group: &str,
    database_name: &str,
    subscription_id: Option<&str>,
) -> Seq<Seq<char>> {
    seq![
        "cosmosdb"@, "sql"@, "database"@, "show"@,
        "--account-name"@, account_name@,
        "--resource-group"@, resource_group@,
        "--name"@, database_name@,
    ] +
    subscription_tokens(opt_view(subscription_id))
}

/// The tokens of the command that creates a SQL database.
pub open spec fn create_sql_database_tokens(
    account_name: &str,
    resource_group: &str,
    database_name: &str,
    throughput: Option<i32>,
    max_throughput: Option<i32>,
    subscription_id: Option<&str>,
) -> Seq<Seq<char>> {
    seq![
        "cosmosdb"@, "sql"@, "database"@, "create"@,
        "--account-name"@, account_name@,
        "--resource-group"@, resource_group@,
        "--name"@, database_name@,
    ] +
    subscription_tokens(opt_view(subscription_id)) +
    optional_param_tokens("--throughput"@, opt_decimal(throughput)) +
    optional_param_tokens("--max-throughput"@, opt_decimal(max_throughput))
}

/// The tokens of the command that deletes a SQL database without asking for confirmation.
pub open spec fn delete_sql_database_tokens(
    account_name: &str,
    resource_group: &str,
    database_name: &str,
    subscription_id: Option<&str>,
) -> Seq<Seq<char>> {
    seq![
        "cosmosdb"@, "sql"@, "database"@, "delete"@,
        "--account-name"@, account_name@,
        "--resource-group"@, resource_group@,
        "--name"@, database_name@,
        "--yes"@,
    ] +
    subscription_tokens(opt_view(subscription_id))
}

/// The tokens of the command that lists the containers of a SQL database.
pub open spec fn list_sql_containers_tokens(
    account_name: &str,
    resource_group: &str,
    database_name: &str,
) -> Seq<Seq<char>> {
    seq![
        "cosmosdb"@, "sql"@, "container"@, "list"@,
        "--account-name"@, account_name@,
        "--resource-group"@, resource_group@,
        "--database-name"@, database_name@,
    ]
}

/// The tokens of the command that shows one SQL container.
pub open spec fn show_sql_container_tokens(
    account_name: &str,
    resource_group: &str,
    database_name: &str,
    container_name: &str,
) -> Seq<Seq<char>> {
    seq![
        "cosmosdb"@, "sql"@, "container"@, "show"@,
        "--account-name"@, account_name@,
        "--resource-group"@, resource_group@,
        "--database-name"@, database_name@,
        "--name"@, container_name@,
    ]
}

/// The tokens of the command that creates a SQL container.
pub open spec fn create_sql_container_tokens(
    account_name: &str,
    resource_group: &str,
    database_name: &str,
    container_name: &str,
    partition_key_path: &str,
    throughput: Option<i32>,
    max_throughput: Option<i32>,
) -> Seq<Seq<char>> {
    seq![
        "cosmosdb"@, "sql"@, "container"@, "create"@,
        "--account-name"@, account_name@,
        "--resource-group"@, resource_group@,
        "--database-name"@, database_name@,
        "--name"@, container_name@,
        "--partition-key-path"@, partition_key_path@,
    ] +
    optional_param_tokens("--throughput"@, opt_decimal(throughput)) +
    optional_param_tokens("--max-throughput"@, opt_decimal(max_throughput))
}

/// The tokens of the command that deletes a SQL container without asking for confirmation.
pub open spec fn delete_sql_container_tokens(
    account_name: &str,
    resource_group: &str,
    database_name: &str,
    container_name: &str,
) -> Seq<Seq<char>> {
    seq![
        "cosmosdb"@, "sql"@, "container"@, "delete"@,
        "--account-name"@, account_name@,
        "--resource-group"@, resource_group@,
        "--database-name"@, database_name@,
        "--name"@, container_name@,
        "--yes"@,
    ]
}

/// The tokens of the command that shows the throughput of a SQL database.
pub open spec fn get_database_throughput_tokens(
    account_name: &str,
    resource_group: &str,
    database_name: &str,
) -> Seq<Seq<char>> {
    seq![
        "cosmosdb"@, "sql"@, "database"@, "throughput"@, "show"@,
        "--account-name"@, account_name@,
        "--resource-group"@, resource_group@,
        "--name"@, database_name@,
    ]
}

/// The tokens of the command that changes the throughput of a SQL database.
pub open spec fn update_database_throughput_tokens(
    account_name: &str,
    resource_group: &str,
    database_name: &str,
    throughput: Option<i32>,
    max_throughput: Option<i32>,
) -> Seq<Seq<char>> {
    seq![
        "cosmosdb"@, "sql"@, "database"@, "throughput"@, "update"@,
        "--account-name"@, account_name@,
        "--resource-group"@, resource_group@,
        "--name"@, database_name@,
    ] +
    optional_param_tokens("--throughput"@, opt_decimal(throughput)) +
    optional_param_tokens("--max-throughput"@, opt_decimal(max_throughput))
}

/// The tokens of the command that shows the throughput of a SQL container.
pub open spec fn get_container_throughput_tokens(
    account_name: &str,
    resource_group: &str,
    database_name: &str,
    container_name: &str,
) -> Seq<Seq<char>> {
    seq![
        "cosmosdb"@, "sql"@, "container"@, "throughput"@, "show"@,
        "--account-name"@, account_name@,
        "--resource-group"@, resource_group@,
        "--database-name"@, database_name@,
        "--name"@, container_name@,
    ]
}

/// The tokens of the command that changes the throughput of a SQL container.
pub open spec fn update_container_throughput_tokens(
    account_name: &str,
    resource_group: &str,
    database_name: &str,
    container_name: &str,
    throughput: Option<i32>,
    max_throughput: Option<i32>,
) -> Seq<Seq<char>> {
    seq![
        "cosmosdb"@, "sql"@, "container"@, "throughput"@, "update"@,
        "--account-name"@, account_name@,
        "--resource-group"@, resource_group@,
        "--database-name"@, database_name@,
        "--name"@, container_name@,
    ] +
    optional_param_tokens("--throughput"@, opt_decimal(throughput)) +
    optional_param_tokens("--max-throughput"@, opt_decimal(max_throughput))
}

/// The tokens of the command that lists the MongoDB databases of an account.
pub open spec fn list_mongodb_databases_tokens(
    account_name: &str,
    resource_group: &str,
) -> Seq<Seq<char>> {
    seq![
        "cosmosdb"@, "mongodb"@, "database"@, "list"@,
        "--account-name"@, account_name@,
        "--resource-group"@, resource_group@,
    ]
}

/// The tokens of the command that lists the collections of a MongoDB database.
pub open spec fn list_mongodb_collections_tokens(
    account_name: &str,
    resource_group: &str,
    database_name: &str,
) -> Seq<Seq<char>> {
    seq![
        "cosmosdb"@, "mongodb"@, "collection"@, "list"@,
        "--account-name"@, account_name@,
        "--resource-group"@, resource_group@,
        "--database-name"@, database_name@,
    ]
}

/// The tokens of the command that lists the regions of an account.
pub open spec fn list_account_locations_tokens(
    account_name: &str,
    resource_group: &str,
) -> Seq<Seq<char>> {
    seq![
        "cosmosdb"@, "locations"@, "list"@,
        "--name"@, account_name@,
        "--resource-group"@, resource_group@,
    ]
}

/// The tokens of the command that changes the failover priorities of the regions of an account.
pub open spec fn failover_priority_change_tokens(
    account_name: &str,
    resource_group: &str,
    failover_policies: Vec<(String, i32)>,
) -> Seq<Seq<char>> {
    seq![
        "cosmosdb"@, "failover-priority-change"@,
        "--name"@, account_name@,
        "--resource-group"@, resource_group@,
    ] +
    failover_tokens("--failover-policies"@, failover_policies@)
}


/// The commands on Cosmos DB accounts and their databases and containers.
pub struct CosmosCommands;

impl CosmosCommands {
    /// The command that lists the Cosmos DB accounts, of one resource group when one is given.
    pub fn list_accounts(
        resource_group: Option<&str>,
        subscription_id: Option<&str>,
    ) -> (r: Vec<String>)
        ensures
            tokens_of(r@) == list_accounts_tokens(resource_group, subscription_id),
    {
        let b = AzCommandBuilder::new()
            .subcommand("cosmosdb")
            .subcommand("list")
            .subscription(subscription_id);
        let b = append_optional(b, "--resource-group", resource_group);
        let r = b.build();
        assert(tokens_of(r@) =~= list_accounts_tokens(resource_group, subscription_id));
        r
    }

    /// The command that shows one Cosmos DB account.
    pub fn show_account(
        name: &str,
        resource_group: &str,
        subscription_id: Option<&str>,
    ) -> (r: Vec<String>)
        ensures
            tokens_of(r@) == show_account_tokens(name, resource_group, subscription_id),
    {
        let b = AzCommandBuilder::new()
            .subcommand("cosmosdb")
            .subcommand("show")
            .param("--name", name)
            .param("--resource-group", resource_group)
            .subscription(subscription_id);
        let r = b.build();
        assert(tokens_of(r@) =~= show_account_tokens(name, resource_group, subscription_id));
        r
    }

    /// The command that creates a Cosmos DB account.
    pub fn create_account(
        name: &str,
        resource_group: &str,
        location: &str,
        kind: Option<&str>,
        capabilities: Option<Vec<&str>>,
        enable_automatic_failover: Option<bool>,
        enable_multiple_write_locations: Option<bool>,
        subscription_id: Option<&str>,
    ) -> (r: Vec<String>)
        ensures
            tokens_of(r@) == create_account_tokens(
                name,
                resource_group,
                location,
                kind,
                capabilities,
                enable_automatic_failover,
                enable_multiple_write_locations,
                subscription_id,
            ),
    {
        let b = AzCommandBuilder::new()
            .subcommand("cosmosdb")
            .subcommand("create")
            .param("--name", name)
            .param("--resource-group", resource_group)
            .param("--location", location)
            .subscription(subscription_id);
        let b = append_optional(b, "--kind", kind);
        let b = append_optional_repeated(b, "--capabilities", &capabilities);
        let b = append_optional_flag(b, "--enable-automatic-failover", enable_automatic_failover);
        let b = append_optional_flag(b, "--enable-multiple-write-locations", enable_multiple_write_locations);
        let r = b.build();
        assert(tokens_of(r@) =~= create_account_tokens(
            name,
            resource_group,
            location,
            kind,
            capabilities,
            enable_automatic_failover,
            enable_multiple_write_locations,
            subscription_id,
        ));
        r
    }

    /// The command that updates a Cosmos DB account.
    pub fn update_account(
        name: &str,
        resource_group: &str,
        enable_automatic_failover: Option<bool>,
        enable_multiple_write_locations: Option<bool>,
        subscription_id: Option<&str>,
    ) -> (r: Vec<String>)
        ensures
            tokens_of(r@) == update_account_tokens(
                name,
                resource_group,
                enable_automatic_failover,
                enable_multiple_write_locations,
                subscription_id,
            ),
    {
        let b = AzCommandBuilder::new()
            .subcommand("cosmosdb")
            .subcommand("update")
            .param("--name", name)
            .param("--resource-group", resource_group)
            .subscription(subscription_id);
        let b = append_optional_flag(b, "--enable-automatic-failover", enable_automatic_failover);
        let b = append_optional_flag(b, "--enable-multiple-write-locations", enable_multiple_write_locations);
        let r = b.build();
        assert(tokens_of(r@) =~= update_account_tokens(
            name,
            resource_group,
            enable_automatic_failover,
            enable_multiple_write_locations,
            subscription_id,
        ));
        r
    }

    /// The command that deletes a Cosmos DB account without asking for confirmation.
    pub fn delete_account(
        name: &str,
        resource_group: &str,
        subscription_id: Option<&str>,
    ) -> (r: Vec<String>)
        ensures
            tokens_of(r@) == delete_account_tokens(name, resource_group, subscription_id),
    {
        let b = AzCommandBuilder::new()
            .subcommand("cosmosdb")
            .subcommand("delete")
            .param("--name", name)
            .param("--resource-group", resource_group)
            .flag("--yes")
            .subscription(subscription_id);
        let r = b.build();
        assert(tokens_of(r@) =~= delete_account_tokens(name, resource_group, subscription_id));
        r
    }

    /// The command that lists the access keys of an account.
    pub fn list_keys(
        account_name: &str,
        resource_group: &str,
        subscription_id: Option<&str>,
    ) -> (r: Vec<String>)
        ensures
            tokens_of(r@) == list_keys_tokens(account_name, resource_group, subscription_id),
    {
        let b = AzCommandBuilder::new()
            .subcommand("cosmosdb")
            .subcommand("keys")
            .subcommand("list")
            .param("--name", account_name)
            .param("--resource-group", resource_group)
            .subscription(subscription_id);
        let r = b.build();
        assert(tokens_of(r@) =~= list_keys_tokens(account_name, resource_group, subscription_id));
        r
    }

    /// The command that lists the read-only access keys of an account.
    pub fn list_read_only_keys(
        account_name: &str,
        resource_group: &str,
        subscription_id: Option<&str>,
    ) -> (r: Vec<String>)
        ensures
            tokens_of(r@) == list_read_only_keys_tokens(
                account_name,
                resource_group,
                subscription_id,
            ),
    {
        let b = AzCommandBuilder::new()
            .subcommand("cosmosdb")
            .subcommand("keys")
            .subcommand("list")
            .param("--name", account_name)
            .param("--resource-group", resource_group)
            .param("--type", "read-only-keys")
            .subscription(subscription_id);
        let r = b.build();
        assert(tokens_of(r@) =~= list_read_only_keys_tokens(
            account_name,
            resource_group,
            subscription_id,
        ));
        r
    }

    /// The command that regenerates one key of an account (`primary`, `secondary`, `primaryReadonly` or `secondaryReadonly`).
    pub fn regenerate_key(
        account_name: &str,
        resource_group: &str,
        key_kind: &str,
        subscription_id: Option<&str>,
    ) -> (r: Vec<String>)
        ensures
            tokens_of(r@) == regenerate_key_tokens(
                account_name,
                resource_group,
                key_kind,
                subscription_id,
            ),
    {
        let b = AzCommandBuilder::new()
            .subcommand("cosmosdb")
            .subcommand("keys")
            .subcommand("regenerate")
            .param("--name", account_name)
            .param("--resource-group", resource_group)
            .param("--key-kind", key_kind)
            .subscription(subscription_id);
        let r = b.build();
        assert(tokens_of(r@) =~= regenerate_key_tokens(
            account_name,
            resource_group,
            key_kind,
            subscription_id,
        ));
        r
    }

    /// The command that lists the connection strings of an account.
    pub fn list_connection_strings(
        account_name: &str,
        resource_group: &str,
        subscription_id: Option<&str>,
    ) -> (r: Vec<String>)
        ensures
            tokens_of(r@) == list_connection_strings_tokens(
                account_name,
                resource_group,
                subscription_id,
            ),
    {
        let b = AzCommandBuilder::new()
            .subcommand("cosmosdb")
            .subcommand("keys")
            .subcommand("list")
            .param("--name", account_name)
            .param("--resource-group", resource_group)
            .param("--type", "connection-strings")
            .subscription(subscription_id);
        let r = b.build();
        assert(tokens_of(r@) =~= list_connection_strings_tokens(
            account_name,
            resource_group,
            subscription_id,
        ));
        r
    }

    /// The command that lists the SQL databases of an account.
    pub fn list_sql_databases(
        account_name: &str,
        resource_group: &str,
        subscription_id: Option<&str>,
    ) -> (r: Vec<String>)
        ensures
            tokens_of(r@) == list_sql_databases_tokens(
                account_name,
                resource_group,
                subscription_id,
            ),
    {
        let b = AzCommandBuilder::new()
            .subcommand("cosmosdb")
            .subcommand("sql")
            .subcommand("database")
            .subcommand("list")
            .param("--account-name", account_name)
            .param("--resource-group", resource_group)
            .subscription(subscription_id);
        let r = b.build();
        assert(tokens_of(r@) =~= list_sql_databases_tokens(
            account_name,
            resource_group,
            subscription_id,
        ));
        r
    }

    /// The command that shows one SQL database.
    pub fn show_sql_database(
        account_name: &str,
        resource_group: &str,
        database_name: &str,
        subscription_id: Option<&str>,
    ) -> (r: Vec<String>)
        ensures
            tokens_of(r@) == show_sql_database_tokens(
                account_name,
                resource_group,
                database_name,
                subscription_id,
            ),
    {
        let b = AzCommandBuilder::new()
            .subcommand("cosmosdb")
            .subcommand("sql")
            .subcommand("database")
            .subcommand("show")
            .param("--account-name", account_name)
            .param("--resource-group", resource_group)
            .param("--name", database_name)
            .subscription(subscription_id);
        let r = b.build();
        assert(tokens_of(r@) =~= show_sql_database_tokens(
            account_name,
            resource_group,
            database_name,
            subscription_id,
        ));
        r
    }

    /// The command that creates a SQL database.
    pub fn create_sql_database(
        account_name: &str,
        resource_group: &str,
        database_name: &str,
        throughput: Option<i32>,
        max_throughput: Option<i32>,
        subscription_id: Option<&str>,
    ) -> (r: Vec<String>)
        ensures
            tokens_of(r@) == create_sql_database_tokens(
                account_name,
                resource_group,
                database_name,
                throughput,
                max_throughput,
                subscription_id,
            ),
    {
        let b = AzCommandBuilder::new()
            .subcommand("cosmosdb")
            .subcommand("sql")
            .subcommand("database")
            .subcommand("create")
            .param("--account-name", account_name)
            .param("--resource-group", resource_group)
            .param("--name", database_name)
            .subscription(subscription_id);
        let b = append_optional_number(b, "--throughput", throughput);
        let b = append_optional_number(b, "--max-throughput", max_throughput);
        let r = b.build();
        assert(tokens_of(r@) =~= create_sql_database_tokens(
            account_name,
            resource_group,
            database_name,
            throughput,
            max_throughput,
            subscription_id,
        ));
        r
    }

    /// The command that deletes a SQL database without asking for confirmation.
    pub fn delete_sql_database(
        account_name: &str,
        resource_group: &str,
        database_name: &str,
        subscription_id: Option<&str>,
    ) -> (r: Vec<String>)
        ensures
            tokens_of(r@) == delete_sql_database_tokens(
                account_name,
                resource_group,
                database_name,
                subscription_id,
            ),
    {
        let b = AzCommandBuilder::new()
            .subcommand("cosmosdb")
            .subcommand("sql")
            .subcommand("database")
            .subcommand("delete")
            .param("--account-name", account_name)
            .param("--resource-group", resource_group)
            .param("--name", database_name)
            .flag("--yes")
            .subscription(subscription_id);
        let r = b.build();
        assert(tokens_of(r@) =~= delete_sql_database_tokens(
            account_name,
            resource_group,
            database_name,
            subscription_id,
        ));
        r
    }

    /// The command that lists the containers of a SQL database.
    pub fn list_sql_containers(
        account_name: &str,
        resource_group: &str,
        database_name: &str,
    ) -> (r: Vec<String>)
        ensures
            tokens_of(r@) == list_sql_containers_tokens(
                account_name,
                resource_group,
                database_name,
            ),
    {
        let b = AzCommandBuilder::new()
            .subcommand("cosmosdb")
            .subcommand("sql")
            .subcommand("container")
            .subcommand("list")
            .param("--account-name", account_name)
            .param("--resource-group", resource_group)
            .param("--database-name", database_name);
        let r = b.build();
        assert(tokens_of(r@) =~= list_sql_containers_tokens(
            account_name,
            resource_group,
            database_name,
        ));
        r
    }

    /// The command that shows one SQL container.
    pub fn show_sql_container(
        account_name: &str,
        resource_group: &str,
        database_name: &str,
        container_name: &str,
    ) -> (r: Vec<String>)
        ensures
            tokens_of(r@) == show_sql_container_tokens(
                account_name,
                resource_group,
                database_name,
                container_name,
            ),
    {
        let b = AzCommandBuilder::new()
            .subcommand("cosmosdb")
            .subcommand("sql")
            .subcommand("container")
            .subcommand("show")
            .param("--account-name", account_name)
            .param("--resource-group", resource_group)
            .param("--database-name", database_name)
            .param("--name", container_name);
        let r = b.build();
        assert(tokens_of(r@) =~= show_sql_container_tokens(
            account_name,
            resource_group,
            database_name,
            container_name,
        ));
        r
    }

    /// The command that creates a SQL container.
    pub fn create_sql_container(
        account_name: &str,
        resource_group: &str,
        database_name: &str,
        container_name: &str,
        partition_key_path: &str,
        throughput: Option<i32>,
        max_throughput: Option<i32>,
    ) -> (r: Vec<String>)
        ensures
            tokens_of(r@) == create_sql_container_tokens(
                account_name,
                resource_group,
                database_name,
                container_name,
                partition_key_path,
                throughput,
                max_throughput,
            ),
    {
        let b = AzCommandBuilder::new()
            .subcommand("cosmosdb")
            .subcommand("sql")
            .subcommand("container")
            .subcommand("create")
            .param("--account-name", account_name)
            .param("--resource-group", resource_group)
            .param("--database-name", database_name)
            .param("--name", container_name)
            .param("--partition-key-path", partition_key_path);
        let b = append_optional_number(b, "--throughput", throughput);
        let b = append_optional_number(b, "--max-throughput", max_throughput);
        let r = b.build();
        assert(tokens_of(r@) =~= create_sql_container_tokens(
            account_name,
            resource_group,
            database_name,
            container_name,
            partition_key_path,
            throughput,
            max_throughput,
        ));
        r
    }

    /// The command that deletes a SQL container without asking for confirmation.
    pub fn delete_sql_container(
        account_name: &str,
        resource_group: &str,
        database_name: &str,
        container_name: &str,
    ) -> (r: Vec<String>)
        ensures
            tokens_of(r@) == delete_sql_container_tokens(
                account_name,
                resource_group,
                database_name,
                container_name,
            ),
    {
        let b = AzCommandBuilder::new()
            .subcommand("cosmosdb")
            .subcommand("sql")
            .subcommand("container")
            .subcommand("delete")
            .param("--account-name", account_name)
            .param("--resource-group", resource_group)
            .param("--database-name", database_name)
            .param("--name", container_name)
            .flag("--yes");
        let r = b.build();
        assert(tokens_of(r@) =~= delete_sql_container_tokens(
            account_name,
            resource_group,
            database_name,
            container_name,
        ));
        r
    }

    /// The command that shows the throughput of a SQL database.
    pub fn get_database_throughput(
        account_name: &str,
        resource_group: &str,
        database_name: &str,
    ) -> (r: Vec<String>)
        ensures
            tokens_of(r@) == get_database_throughput_tokens(
                account_name,
                resource_group,
                database_name,
            ),
    {
        let b = AzCommandBuilder::new()
            .subcommand("cosmosdb")
            .subcommand("sql")
            .subcommand("database")
            .subcommand("throughput")
            .subcommand("show")
            .param("--account-name", account_name)
            .param("--resource-group", resource_group)
            .param("--name", database_name);
        let r = b.build();
        assert(tokens_of(r@) =~= get_database_throughput_tokens(
            account_name,
            resource_group,
            database_name,
        ));
        r
    }

    /// The command that changes the throughput of a SQL database.
    pub fn update_database_throughput(
        account_name: &str,
        resource_group: &str,
        database_name: &str,
        throughput: Option<i32>,
        max_throughput: Option<i32>,
    ) -> (r: Vec<String>)
        ensures
            tokens_of(r@) == update_database_throughput_tokens(
                account_name,
                resource_group,
                database_name,
                throughput,
                max_throughput,
            ),
    {
        let b = AzCommandBuilder::new()
            .subcommand("cosmosdb")
            .subcommand("sql")
            .subcommand("database")
            .subcommand("throughput")
            .subcommand("update")
            .param("--account-name", account_name)
            .param("--resource-group", resource_group)
            .param("--name", database_name);
        let b = append_optional_number(b, "--throughput", throughput);
        let b = append_optional_number(b, "--max-throughput", max_throughput);
        let r = b.build();
        assert(tokens_of(r@) =~= update_database_throughput_tokens(
            account_name,
            resource_group,
            database_name,
            throughput,
            max_throughput,
        ));
        r
    }

    /// The command that shows the throughput of a SQL container.
    pub fn get_container_throughput(
        account_name: &str,
        resource_group: &str,
        database_name: &str,
        container_name: &str,
    ) -> (r: Vec<String>)
        ensures
            tokens_of(r@) == get_container_throughput_tokens(
                account_name,
                resource_group,
                database_name,
                container_name,
            ),
    {
        let b = AzCommandBuilder::new()
            .subcommand("cosmosdb")
            .subcommand("sql")
            .subcommand("container")
            .subcommand("throughput")
            .subcommand("show")
            .param("--account-name", account_name)
            .param("--resource-group", resource_group)
            .param("--database-name", database_name)
            .param("--name", container_name);
        let r = b.build();
        assert(tokens_of(r@) =~= get_container_throughput_tokens(
            account_name,
            resource_group,
            database_name,
            container_name,
        ));
        r
    }

    /// The command that changes the throughput of a SQL container.
    pub fn update_container_throughput(
        account_name: &str,
        resource_group: &str,
        database_name: &str,
        container_name: &str,
        throughput: Option<i32>,
        max_throughput: Option<i32>,
    ) -> (r: Vec<String>)
        ensures
            tokens_of(r@) == update_container_throughput_tokens(
                account_name,
                resource_group,
                database_name,
                container_name,
                throughput,
                max_throughput,
            ),
    {
        let b = AzCommandBuilder::new()
            .subcommand("cosmosdb")
            .subcommand("sql")
            .subcommand("container")
            .subcommand("throughput")
            .subcommand("update")
            .param("--account-name", account_name)
            .param("--resource-group", resource_group)
            .param("--database-name", database_name)
            .param("--name", container_name);
        let b = append_optional_number(b, "--throughput", throughput);
        let b = append_optional_number(b, "--max-throughput", max_throughput);
        let r = b.build();
        assert(tokens_of(r@) =~= update_container_throughput_tokens(
            account_name,
            resource_group,
            database_name,
            container_name,
            throughput,
            max_throughput,
        ));
        r
    }

    /// The command that lists the MongoDB databases of an account.
    pub fn list_mongodb_databases(account_name: &str, resource_group: &str) -> (r: Vec<String>)
        ensures
            tokens_of(r@) == list_mongodb_databases_tokens(account_name, resource_group),
    {
        let b = AzCommandBuilder::new()
            .subcommand("cosmosdb")
            .subcommand("mongodb")
            .subcommand("database")
            .subcommand("list")
            .param("--account-name", account_name)
            .param("--resource-group", resource_group);
        let r = b.build();
        assert(tokens_of(r@) =~= list_mongodb_databases_tokens(account_name, resource_group));
        r
    }

    /// The command that lists the collections of a MongoDB database.
    pub fn list_mongodb_collections(
        account_name: &str,
        resource_group: &str,
        database_name: &str,
    ) -> (r: Vec<String>)
        ensures
            tokens_of(r@) == list_mongodb_collections_tokens(
                account_name,
                resource_group,
                database_name,
            ),
    {
        let b = AzCommandBuilder::new()
            .subcommand("cosmosdb")
            .subcommand("mongodb")
            .subcommand("collection")
            .subcommand("list")
            .param("--account-name", account_name)
            .param("--resource-group", resource_group)
            .param("--database-name", database_name);
        let r = b.build();
        assert(tokens_of(r@) =~= list_mongodb_collections_tokens(
            account_name,
            resource_group,
            database_name,
        ));
        r
    }

    /// The command that lists the regions of an account.
    pub fn list_account_locations(account_name: &str, resource_group: &str) -> (r: Vec<String>)
        ensures
            tokens_of(r@) == list_account_locations_tokens(account_name, resource_group),
    {
        let b = AzCommandBuilder::new()
            .subcommand("cosmosdb")
            .subcommand("locations")
            .subcommand("list")
            .param("--name", account_name)
            .param("--resource-group", resource_group);
        let r = b.build();
        assert(tokens_of(r@) =~= list_account_locations_tokens(account_name, resource_group));
        r
    }

    /// The command that changes the failover priorities of the regions of an account.
    pub fn failover_priority_change(
        account_name: &str,
        resource_group: &str,
        failover_policies: Vec<(String, i32)>,
    ) -> (r: Vec<String>)
        ensures
            tokens_of(r@) == failover_priority_change_tokens(
                account_name,
                resource_group,
                failover_policies,
            ),
    {
        let b = AzCommandBuilder::new()
            .subcommand("cosmosdb")
            .subcommand("failover-priority-change")
            .param("--name", account_name)
            .param("--resource-group", resource_group);
        let b = append_failover(b, "--failover-policies", &failover_policies);
        let r = b.build();
        assert(tokens_of(r@) =~= failover_priority_change_tokens(
            account_name,
            resource_group,
            failover_policies,
        ));
        r
    }
}

} // verus!
