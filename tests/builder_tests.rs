use rust_az_wrapper::{format_bool_param, format_optional_param, AzCommandBuilder};

fn strs(v: &[&str]) -> Vec<String> {
    v.iter().map(|s| s.to_string()).collect()
}

#[test]
fn group_list_with_subscription_context() {
    let args = AzCommandBuilder::new()
        .subcommand("group")
        .subcommand("list")
        .subscription(Some("sub-1"))
        .build();
    assert_eq!(args, strs(&["group", "list", "--subscription", "sub-1"]));
}

#[test]
fn tokens_come_out_in_call_order() {
    let args = AzCommandBuilder::new()
        .flag("--yes")
        .param("--name", "a")
        .subcommand("show")
        .conditional_flag("--x", true)
        .optional_param("--kind", &Some("k".to_string()))
        .subscription(None)
        .subcommand("cosmosdb")
        .param("--name", "a")
        .build();
    assert_eq!(
        args,
        strs(&["--yes", "--name", "a", "show", "--x", "--kind", "k", "cosmosdb", "--name", "a"])
    );
}

#[test]
fn optional_param_absent_appends_nothing() {
    let args = AzCommandBuilder::new().subcommand("a").optional_param("--kind", &None).build();
    assert_eq!(args, strs(&["a"]));
}

#[test]
fn optional_param_present_appends_pair() {
    let args = AzCommandBuilder::new().optional_param("--kind", &Some("MongoDB".to_string())).build();
    assert_eq!(args, strs(&["--kind", "MongoDB"]));
}

#[test]
fn conditional_flag_false_appends_nothing() {
    let args = AzCommandBuilder::new().conditional_flag("--enable", false).build();
    assert!(args.is_empty());
}

#[test]
fn conditional_flag_true_appends_flag_only() {
    let args = AzCommandBuilder::new().conditional_flag("--enable", true).build();
    assert_eq!(args, strs(&["--enable"]));
}

#[test]
fn empty_values_pass_through() {
    let args = AzCommandBuilder::new().param("--name", "").subscription(Some("")).build();
    assert_eq!(args, strs(&["--name", "", "--subscription", ""]));
}

#[test]
fn same_flag_may_repeat() {
    let args = AzCommandBuilder::new().param("--capabilities", "a").param("--capabilities", "a").build();
    assert_eq!(args, strs(&["--capabilities", "a", "--capabilities", "a"]));
}

#[test]
fn new_builder_is_empty() {
    assert!(AzCommandBuilder::new().build().is_empty());
    assert!(AzCommandBuilder::default().build().is_empty());
}

#[test]
fn format_optional_param_cases() {
    assert_eq!(format_optional_param("--kind", &Some("v".to_string())), strs(&["--kind", "v"]));
    assert!(format_optional_param("--kind", &None).is_empty());
}

#[test]
fn format_bool_param_cases() {
    assert_eq!(format_bool_param("--flag", Some(true)), strs(&["--flag"]));
    assert_eq!(format_bool_param("--flag", Some(false)), strs(&["--flag=false"]));
    assert!(format_bool_param("--flag", None).is_empty());
}
