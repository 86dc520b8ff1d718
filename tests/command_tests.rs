use rust_az_wrapper::client::AzureClient;
use rust_az_wrapper::commands::account::AccountCommands;
use rust_az_wrapper::commands::cosmos::CosmosCommands;
use rust_az_wrapper::executor::{authentication_probe_args, invocation_args, version_probe_args};

fn strs(v: &[&str]) -> Vec<String> {
    v.iter().map(|s| s.to_string()).collect()
}

#[test]
fn create_account_with_every_option() {
    let args = CosmosCommands::create_account(
        "acc",
        "rg",
        "eastus",
        Some("MongoDB"),
        Some(vec!["EnableServerless", "EnableMongo"]),
        Some(true),
        Some(false),
        Some("sub"),
    );
    assert_eq!(
        args,
        strs(&[
            "cosmosdb", "create", "--name", "acc", "--resource-group", "rg", "--location", "eastus",
            "--subscription", "sub", "--kind", "MongoDB", "--capabilities", "EnableServerless",
            "--capabilities", "EnableMongo", "--enable-automatic-failover",
        ])
    );
}

#[test]
fn create_account_minimal() {
    let args = CosmosCommands::create_account("acc", "rg", "westus", None, None, None, None, None);
    assert_eq!(
        args,
        strs(&["cosmosdb", "create", "--name", "acc", "--resource-group", "rg", "--location", "westus"])
    );
}

#[test]
fn list_accounts_puts_resource_group_after_subscription() {
    let args = CosmosCommands::list_accounts(Some("rg"), Some("s"));
    assert_eq!(args, strs(&["cosmosdb", "list", "--subscription", "s", "--resource-group", "rg"]));
    assert_eq!(CosmosCommands::list_accounts(None, None), strs(&["cosmosdb", "list"]));
}

#[test]
fn create_sql_database_renders_throughput_in_decimal() {
    let args = CosmosCommands::create_sql_database("a", "rg", "db", Some(400), Some(-4000), None);
    assert_eq!(
        args,
        strs(&[
            "cosmosdb", "sql", "database", "create", "--account-name", "a", "--resource-group", "rg",
            "--name", "db", "--throughput", "400", "--max-throughput", "-4000",
        ])
    );
}

#[test]
fn update_container_throughput_extremes() {
    let args = CosmosCommands::update_container_throughput("a", "rg", "db", "c", Some(i32::MIN), Some(i32::MAX));
    assert_eq!(&args[args.len() - 4..], &strs(&["--throughput", "-2147483648", "--max-throughput", "2147483647"])[..]);
    let args = CosmosCommands::update_container_throughput("a", "rg", "db", "c", Some(0), None);
    assert_eq!(&args[args.len() - 2..], &strs(&["--throughput", "0"])[..]);
}

#[test]
fn failover_policies_are_location_equals_priority() {
    let args = CosmosCommands::failover_priority_change(
        "a",
        "rg",
        vec![("eastus".to_string(), 0), ("westus".to_string(), 1)],
    );
    assert_eq!(
        args,
        strs(&[
            "cosmosdb", "failover-priority-change", "--name", "a", "--resource-group", "rg",
            "--failover-policies", "eastus=0", "--failover-policies", "westus=1",
        ])
    );
}

#[test]
fn delete_commands_skip_confirmation() {
    assert_eq!(
        AccountCommands::delete_resource_group("rg", Some("s")),
        strs(&["group", "delete", "--name", "rg", "--yes", "--subscription", "s"])
    );
    assert_eq!(
        CosmosCommands::delete_sql_container("a", "rg", "db", "c"),
        strs(&[
            "cosmosdb", "sql", "container", "delete", "--account-name", "a", "--resource-group", "rg",
            "--database-name", "db", "--name", "c", "--yes",
        ])
    );
}

#[test]
fn key_listing_variants() {
    assert_eq!(
        CosmosCommands::list_read_only_keys("a", "rg", None),
        strs(&["cosmosdb", "keys", "list", "--name", "a", "--resource-group", "rg", "--type", "read-only-keys"])
    );
    assert_eq!(
        CosmosCommands::list_connection_strings("a", "rg", Some("s")),
        strs(&[
            "cosmosdb", "keys", "list", "--name", "a", "--resource-group", "rg", "--type",
            "connection-strings", "--subscription", "s",
        ])
    );
}

#[test]
fn account_commands() {
    assert_eq!(AccountCommands::list_subscriptions(), strs(&["account", "list"]));
    assert_eq!(AccountCommands::show_subscription(Some("x")), strs(&["account", "show", "--subscription", "x"]));
    assert_eq!(AccountCommands::set_subscription("x"), strs(&["account", "set", "--subscription", "x"]));
    assert_eq!(
        AccountCommands::create_resource_group("rg", "eastus", None),
        strs(&["group", "create", "--name", "rg", "--location", "eastus"])
    );
}

#[test]
fn invocation_appends_json_output_flag() {
    let args = invocation_args(&strs(&["group", "list"]));
    assert_eq!(args, strs(&["group", "list", "--output", "json"]));
    assert_eq!(invocation_args(&vec![]), strs(&["--output", "json"]));
    assert_eq!(version_probe_args(), strs(&["--version"]));
    assert_eq!(authentication_probe_args(), strs(&["account", "show"]));
}

#[test]
fn client_subscription_settings() {
    let mut c = AzureClient::new().unwrap();
    assert!(c.checks_authentication());
    assert_eq!(c.get_subscription(), None);
    c.use_subscription("s1".to_string());
    assert_eq!(c.get_subscription(), Some("s1"));
    assert_eq!(c.subscription_for(None), Some("s1"));
    assert_eq!(c.subscription_for(Some("s2")), Some("s2"));
    c.clear_subscription();
    assert_eq!(c.get_subscription(), None);
    let d = AzureClient::new_no_auth_check();
    assert!(!d.checks_authentication());
    let e = AzureClient::with_subscription("z".to_string()).unwrap();
    assert_eq!(e.get_subscription(), Some("z"));
    assert!(AzureClient::default().checks_authentication());
}

#[test]
fn database_and_container_commands() {
    assert_eq!(
        CosmosCommands::list_sql_containers("a", "rg", "db"),
        strs(&[
            "cosmosdb", "sql", "container", "list", "--account-name", "a", "--resource-group", "rg",
            "--database-name", "db",
        ])
    );
    assert_eq!(
        CosmosCommands::get_database_throughput("a", "rg", "db"),
        strs(&[
            "cosmosdb", "sql", "database", "throughput", "show", "--account-name", "a",
            "--resource-group", "rg", "--name", "db",
        ])
    );
    assert_eq!(
        CosmosCommands::show_sql_container("a", "rg", "db", "c"),
        strs(&[
            "cosmosdb", "sql", "container", "show", "--account-name", "a", "--resource-group", "rg",
            "--database-name", "db", "--name", "c",
        ])
    );
    assert_eq!(
        CosmosCommands::create_sql_container("a", "rg", "db", "c", "/pk", None, Some(1000)),
        strs(&[
            "cosmosdb", "sql", "container", "create", "--account-name", "a", "--resource-group", "rg",
            "--database-name", "db", "--name", "c", "--partition-key-path", "/pk", "--max-throughput", "1000",
        ])
    );
}

#[test]
fn mongodb_location_and_key_commands() {
    assert_eq!(
        CosmosCommands::list_mongodb_collections("a", "rg", "db"),
        strs(&[
            "cosmosdb", "mongodb", "collection", "list", "--account-name", "a", "--resource-group", "rg",
            "--database-name", "db",
        ])
    );
    assert_eq!(
        CosmosCommands::list_account_locations("a", "rg"),
        strs(&["cosmosdb", "locations", "list", "--name", "a", "--resource-group", "rg"])
    );
    assert_eq!(
        CosmosCommands::regenerate_key("a", "rg", "primary", Some("s")),
        strs(&[
            "cosmosdb", "keys", "regenerate", "--name", "a", "--resource-group", "rg", "--key-kind",
            "primary", "--subscription", "s",
        ])
    );
    assert_eq!(
        CosmosCommands::update_account("a", "rg", Some(false), Some(true), None),
        strs(&[
            "cosmosdb", "update", "--name", "a", "--resource-group", "rg",
            "--enable-multiple-write-locations",
        ])
    );
    assert_eq!(
        CosmosCommands::failover_priority_change("a", "rg", vec![]),
        strs(&["cosmosdb", "failover-priority-change", "--name", "a", "--resource-group", "rg"])
    );
}
