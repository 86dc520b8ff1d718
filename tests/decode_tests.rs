use rust_az_wrapper::executor::{decode_output, decode_output_list, raw_outcome, require_output, ProcessOutput};
use rust_az_wrapper::parse::parse_output;
use rust_az_wrapper::{
    decode_list, encode_list, AzureError, Capability, CosmosAccount, JsonShape, JsonValue,
    Subscription, ThroughputSettings,
};

fn parse(text: &str) -> JsonValue {
    parse_output(text).unwrap()
}

#[test]
fn structured_output_with_required_name() {
    let args = vec!["x".to_string()];
    let out = ProcessOutput { success: true, code: Some(0), stdout: "{\"name\":\"x\"}".to_string(), stderr: String::new() };
    let cap: Capability = decode_output(&args, raw_outcome(&args, Ok(out))).unwrap();
    assert_eq!(cap.name, "x");
}

#[test]
fn empty_stdout_fails_before_decoding() {
    let args = vec!["x".to_string()];
    let out = ProcessOutput { success: true, code: Some(0), stdout: String::new(), stderr: String::new() };
    let r = require_output(&args, raw_outcome(&args, Ok(out.clone())));
    assert!(matches!(r, Err(AzureError::CliExecution { ref error, .. }) if error == "Empty output"));
    let r = decode_output::<Capability>(&args, raw_outcome(&args, Ok(out)));
    assert!(matches!(r, Err(AzureError::CliExecution { ref error, .. }) if error == "Empty output"));
}

#[test]
fn subscription_accepts_alias_keys() {
    let j = parse(r#"{"id":"1","name":"Dev","state":"Enabled","tenantId":"t","isDefault":true,"extra":5}"#);
    let s = Subscription::from_json(&j).unwrap();
    assert_eq!(s.id, "1");
    assert_eq!(s.display_name, "Dev");
    assert_eq!(s.tenant_id, "t");
    assert_eq!(s.is_default, Some(true));
}

#[test]
fn canonical_key_wins_over_alias() {
    let j = parse(r#"{"id":"1","name":"alias","display_name":"canon","state":"s","tenant_id":"t"}"#);
    let s = Subscription::from_json(&j).unwrap();
    assert_eq!(s.display_name, "canon");
    assert_eq!(s.is_default, None);
}

#[test]
fn missing_required_field_is_a_decode_error() {
    let j = parse(r#"{"id":"1","state":"s","tenantId":"t"}"#);
    assert!(matches!(Subscription::from_json(&j), Err(AzureError::JsonParse(_))));
    assert!(matches!(Capability::from_json(&parse("[1]")), Err(AzureError::JsonParse(_))));
    assert!(matches!(Capability::from_json(&parse(r#"{"name":null}"#)), Err(AzureError::JsonParse(_))));
}

#[test]
fn optional_fields_accept_null_and_absence() {
    let t = ThroughputSettings::from_json(&parse(r#"{"throughput":null}"#)).unwrap();
    assert!(t.throughput.is_none() && t.autoscale_settings.is_none());
    let t = ThroughputSettings::from_json(&parse(r#"{"throughput":400,"autoscaleSettings":{"maxThroughput":4000}}"#)).unwrap();
    assert_eq!(t.throughput, Some(400));
    assert_eq!(t.autoscale_settings.unwrap().max_throughput, 4000);
}

#[test]
fn numbers_must_fit_and_be_integers() {
    assert!(ThroughputSettings::from_json(&parse(r#"{"throughput":3000000000}"#)).is_err());
    assert!(ThroughputSettings::from_json(&parse(r#"{"throughput":1.5}"#)).is_err());
    assert!(ThroughputSettings::from_json(&parse(r#"{"throughput":"400"}"#)).is_err());
}

#[test]
fn list_of_records() {
    let j = parse(r#"[{"name":"a"},{"name":"b"}]"#);
    let caps: Vec<Capability> = decode_list(&j).unwrap();
    assert_eq!(caps.len(), 2);
    assert_eq!(caps[1].name, "b");
    assert!(decode_list::<Capability>(&parse(r#"{"name":"a"}"#)).is_err());
    assert!(decode_list::<Capability>(&parse(r#"[{"name":"a"},{}]"#)).is_err());
    match encode_list(&caps) {
        JsonValue::Array(items) => assert_eq!(items.len(), 2),
        _ => panic!("not an array"),
    }
}

#[test]
fn reencoding_uses_canonical_keys_and_decodes_back() {
    let j = parse(r#"{"id":"1","name":"Dev","state":"Enabled","tenantId":"t"}"#);
    let s = Subscription::from_json(&j).unwrap();
    let k = s.to_json();
    match &k {
        JsonValue::Object(es) => {
            let names: Vec<&str> = es.iter().map(|(n, _)| n.as_str()).collect();
            assert_eq!(names, vec!["id", "display_name", "state", "tenant_id", "is_default"]);
        },
        _ => panic!("not an object"),
    }
    let s2 = Subscription::from_json(&k).unwrap();
    assert_eq!(s2.id, s.id);
    assert_eq!(s2.display_name, s.display_name);
    assert_eq!(s2.state, s.state);
    assert_eq!(s2.tenant_id, s.tenant_id);
    assert_eq!(s2.is_default, s.is_default);
}

#[test]
fn cosmos_account_round_trip() {
    let text = r#"{"name":"acc","id":"/sub/acc","location":"East US","resourceGroup":"rg",
        "type":"Microsoft.DocumentDB/databaseAccounts","kind":"GlobalDocumentDB",
        "provisioningState":"Succeeded","documentEndpoint":"https://acc.documents.azure.com:443/",
        "tags":{"env":"dev"},"capabilities":[{"name":"EnableServerless"}],
        "consistencyPolicy":{"defaultConsistencyLevel":"Session","maxStalenessPrefix":100},
        "locations":[{"locationName":"East US","provisioningState":"Succeeded","failoverPriority":0}],
        "identity":{"type":"None","userAssignedIdentities":{"a":{"k":[1,2.5,null]}}},
        "enableFreeTier":false}"#;
    let a = CosmosAccount::from_json(&parse(text)).unwrap();
    assert_eq!(a.resource_group, "rg");
    assert_eq!(a.resource_type, "Microsoft.DocumentDB/databaseAccounts");
    assert_eq!(a.tags.as_ref().unwrap()[0], ("env".to_string(), "dev".to_string()));
    assert_eq!(a.capabilities.as_ref().unwrap()[0].name, "EnableServerless");
    assert_eq!(a.consistency_policy.as_ref().unwrap().max_staleness_prefix, Some(100));
    assert_eq!(a.locations.as_ref().unwrap()[0].failover_priority, 0);
    assert_eq!(a.enable_free_tier, Some(false));
    assert!(a.backup_policy.is_none());
    let b = CosmosAccount::from_json(&a.to_json()).unwrap();
    assert_eq!(b.document_endpoint, a.document_endpoint);
    assert_eq!(b.provisioning_state, a.provisioning_state);
    assert_eq!(b.identity.unwrap().user_assigned_identities.unwrap().len(), 1);
}

#[test]
fn malformed_output_is_a_decode_error() {
    let args = vec!["x".to_string()];
    let r = decode_output::<Capability>(&args, Ok("{not json".to_string()));
    match r {
        Err(AzureError::JsonParse(m)) => assert!(!m.is_empty()),
        other => panic!("unexpected {:?}", other),
    }
    let r = decode_output::<Capability>(&args, Ok("{\"other\":1}".to_string()));
    assert!(matches!(r, Err(AzureError::JsonParse(_))));
    let r = decode_output::<Capability>(&args, Err(AzureError::Authentication));
    assert!(matches!(r, Err(AzureError::Authentication)));
}

#[test]
fn list_output_and_raw_values() {
    let args = vec!["x".to_string()];
    let caps: Vec<Capability> = decode_output_list(&args, Ok("[{\"name\":\"a\"}]".to_string())).unwrap();
    assert_eq!(caps[0].name, "a");
    let vals: Vec<JsonValue> = decode_output_list(&args, Ok("[1, \"b\", null]".to_string())).unwrap();
    assert_eq!(vals.len(), 3);
    assert!(matches!(&vals[0], JsonValue::Number(n) if n == "1"));
}

#[test]
fn negative_and_large_integers() {
    let p = rust_az_wrapper::ConsistencyPolicy::from_json(&parse(
        r#"{"defaultConsistencyLevel":"Strong","maxStalenessPrefix":-9223372036854775808,"maxIntervalInSeconds":-5}"#,
    ))
    .unwrap();
    assert_eq!(p.max_staleness_prefix, Some(i64::MIN));
    assert_eq!(p.max_interval_in_seconds, Some(-5));
    assert!(rust_az_wrapper::ConsistencyPolicy::from_json(&parse(
        r#"{"defaultConsistencyLevel":"Strong","maxStalenessPrefix":9223372036854775808}"#,
    ))
    .is_err());
}

#[test]
fn azure_field_mapping() {
    let text = r#"
    {
        "name": "test-cosmos",
        "resourceGroup": "test-rg",
        "documentEndpoint": "https://test-cosmos.documents.azure.com:443/",
        "kind": "GlobalDocumentDB",
        "location": "East US",
        "provisioningState": "Succeeded",
        "type": "Microsoft.DocumentDB/databaseAccounts",
        "id": "/subscriptions/test-sub/resourceGroups/test-rg/providers/Microsoft.DocumentDB/databaseAccounts/test-cosmos"
    }
    "#;
    let account = CosmosAccount::from_json(&parse(text)).unwrap();
    assert_eq!(account.name, "test-cosmos");
    assert_eq!(account.resource_group, "test-rg");
    assert_eq!(account.document_endpoint, "https://test-cosmos.documents.azure.com:443/");
    assert_eq!(account.kind, "GlobalDocumentDB");
    assert_eq!(account.provisioning_state, "Succeeded");
    assert!(account.backup_policy.is_none());
    assert!(account.tags.is_none());
}

#[test]
fn backup_policy_type_key_and_camel_case() {
    let text = r#"{"type":"Periodic","periodicModeProperties":{"backupIntervalInMinutes":240,
        "backupRetentionIntervalInHours":168,"backupStorageRedundancy":"LocallyRedundant"}}"#;
    let b = rust_az_wrapper::BackupPolicy::from_json(&parse(text)).unwrap();
    assert_eq!(b.backup_type, "Periodic");
    let p = b.periodic_mode_properties.as_ref().unwrap();
    assert_eq!(p.backup_interval_in_minutes, Some(240));
    assert_eq!(p.backup_retention_interval_in_hours, Some(168));
    assert!(b.continuous_mode_properties.is_none());
    let again = rust_az_wrapper::BackupPolicy::from_json(&b.to_json()).unwrap();
    assert_eq!(again.periodic_mode_properties.unwrap().backup_storage_redundancy, Some("LocallyRedundant".to_string()));
    // snake_case is not accepted where the record only knows camelCase keys
    let snake = parse(r#"{"backup_type":"Periodic"}"#);
    assert!(rust_az_wrapper::BackupPolicy::from_json(&snake).is_err());
}
