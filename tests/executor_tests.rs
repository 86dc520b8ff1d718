use rust_az_wrapper::executor::{
    classify_authentication, classify_probe, raw_outcome, require_output, ProcessOutput,
};
use rust_az_wrapper::text::{command_line_string, contains_str, decimal_string, parse_i64};
use rust_az_wrapper::AzureError;

fn strs(v: &[&str]) -> Vec<String> {
    v.iter().map(|s| s.to_string()).collect()
}

fn exited(success: bool, code: Option<i32>, stdout: &str, stderr: &str) -> ProcessOutput {
    ProcessOutput { success, code, stdout: stdout.to_string(), stderr: stderr.to_string() }
}

#[test]
fn success_returns_stdout_verbatim() {
    let r = raw_outcome(&strs(&["group", "list"]), Ok(exited(true, Some(0), "  [1]\n", "warn")));
    assert_eq!(r.unwrap(), "  [1]\n");
    let r = raw_outcome(&strs(&["group", "list"]), Ok(exited(true, Some(0), "", "")));
    assert_eq!(r.unwrap(), "");
}

#[test]
fn failure_with_stderr_is_cli_error() {
    let r = raw_outcome(&strs(&["group", "list"]), Ok(exited(false, Some(1), "", "boom")));
    match r {
        Err(AzureError::CliError { command, stderr }) => {
            assert_eq!(command, "az group list");
            assert_eq!(stderr, "boom");
        },
        other => panic!("unexpected {:?}", other),
    }
}

#[test]
fn failure_without_stderr_reports_exit_code() {
    let r = raw_outcome(&strs(&["a"]), Ok(exited(false, Some(3), "out", "")));
    match r {
        Err(AzureError::CliExecution { command, error }) => {
            assert_eq!(command, "az a");
            assert_eq!(error, "Command failed with exit code: 3");
        },
        other => panic!("unexpected {:?}", other),
    }
    let r = raw_outcome(&strs(&["a"]), Ok(exited(false, None, "", "")));
    match r {
        Err(AzureError::CliExecution { error, .. }) => assert_eq!(error, "Command failed with exit code: -1"),
        other => panic!("unexpected {:?}", other),
    }
}

#[test]
fn spawn_failure_is_io_error() {
    let r = raw_outcome(&strs(&["a"]), Err("not found".to_string()));
    assert!(matches!(r, Err(AzureError::Io(m)) if m == "not found"));
}

#[test]
fn empty_output_is_its_own_failure() {
    let r = require_output(&strs(&["account", "list"]), Ok(String::new()));
    match r {
        Err(AzureError::CliExecution { command, error }) => {
            assert_eq!(command, "az account list");
            assert_eq!(error, "Empty output");
        },
        other => panic!("unexpected {:?}", other),
    }
    assert_eq!(require_output(&strs(&["x"]), Ok("{}".to_string())).unwrap(), "{}");
    let passed = require_output(&strs(&["x"]), Err(AzureError::CliNotFound));
    assert!(matches!(passed, Err(AzureError::CliNotFound)));
}

#[test]
fn login_hint_means_authentication_required() {
    let raw = Err(AzureError::CliError {
        command: "az account show".to_string(),
        stderr: "ERROR: Please run 'az login' to setup account.".to_string(),
    });
    assert!(matches!(classify_authentication(raw), Err(AzureError::Authentication)));
}

#[test]
fn other_failures_pass_through_unclassified() {
    let raw = Err(AzureError::CliError { command: "az account show".to_string(), stderr: "network down".to_string() });
    match classify_authentication(raw) {
        Err(AzureError::CliError { stderr, .. }) => assert_eq!(stderr, "network down"),
        other => panic!("unexpected {:?}", other),
    }
    let raw = Err(AzureError::CliExecution { command: "c".to_string(), error: "az login".to_string() });
    assert!(matches!(classify_authentication(raw), Err(AzureError::CliExecution { .. })));
    assert!(classify_authentication(Ok("{}".to_string())).is_ok());
}

#[test]
fn nonzero_exit_then_login_classification() {
    let raw = raw_outcome(&strs(&["account", "show"]), Ok(exited(false, Some(1), "", "Please run az login")));
    assert!(matches!(classify_authentication(raw), Err(AzureError::Authentication)));
    let raw = raw_outcome(&strs(&["account", "show"]), Ok(exited(false, Some(2), "", "")));
    assert!(matches!(classify_authentication(raw), Err(AzureError::CliExecution { .. })));
}

#[test]
fn probe_classification() {
    assert!(classify_probe(&Ok(exited(true, Some(0), "", ""))).is_ok());
    assert!(matches!(classify_probe(&Ok(exited(false, Some(1), "", ""))), Err(AzureError::CliNotFound)));
    assert!(matches!(classify_probe(&Err("missing".to_string())), Err(AzureError::CliNotFound)));
}

#[test]
fn error_messages() {
    assert_eq!(
        AzureError::Authentication.message(),
        "Not authenticated with Azure. Please run 'az login' first."
    );
    let e = AzureError::CliError { command: "az x".to_string(), stderr: "bad".to_string() };
    assert_eq!(e.message(), "Azure CLI error in command 'az x': bad");
    let e = AzureError::CliExecution { command: "az x".to_string(), error: "Empty output".to_string() };
    assert_eq!(e.message(), "Failed to execute Azure CLI command 'az x': Empty output");
    assert_eq!(AzureError::JsonParse("eof".to_string()).message(), "Failed to parse JSON response: eof");
    assert_eq!(AzureError::Io("gone".to_string()).message(), "IO error: gone");
    assert_eq!(AzureError::Custom("plain".to_string()).message(), "plain");
    assert!(AzureError::CliNotFound.message().starts_with("Azure CLI is not installed"));
}

#[test]
fn text_helpers() {
    assert_eq!(decimal_string(0), "0");
    assert_eq!(decimal_string(1234567890), "1234567890");
    assert_eq!(decimal_string(-5), "-5");
    assert_eq!(decimal_string(i64::MIN), "-9223372036854775808");
    assert_eq!(decimal_string(i64::MAX), "9223372036854775807");
    assert!(contains_str("please az login now", "az login"));
    assert!(!contains_str("az logi", "az login"));
    assert!(contains_str("abc", ""));
    assert!(!contains_str("", "a"));
    assert_eq!(command_line_string(&strs(&["a", "b c"])), "az a b c");
    assert_eq!(command_line_string(&vec![]), "az ");
    assert_eq!(parse_i64("42"), Some(42));
    assert_eq!(parse_i64("-0"), Some(0));
    assert_eq!(parse_i64("9223372036854775807"), Some(i64::MAX));
    assert_eq!(parse_i64("-9223372036854775808"), Some(i64::MIN));
    assert_eq!(parse_i64("9223372036854775808"), None);
    assert_eq!(parse_i64("1.5"), None);
    assert_eq!(parse_i64("-"), None);
    assert_eq!(parse_i64(""), None);
    assert_eq!(parse_i64("1e3"), None);
}
