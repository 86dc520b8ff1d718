//! The failures that an invocation of the tool can end in.

use vstd::prelude::*;

verus! {

/// Why an operation failed.
#[derive(Debug)]
pub enum AzureError {
    /// The tool is not installed or cannot be started.
    CliNotFound,
    /// The tool reports that no one is logged in.
    Authentication,
    /// The tool ran and failed without saying why, or gave no output where
    /// some was required.
    CliExecution { command: String, error: String },
    /// The tool ran and failed, with this text on its error stream.
    CliError { command: String, stderr: String },
    /// The output was not JSON, or not of the expected shape.
    JsonParse(String),
    /// The operating system could not start the process.
    Io(String),
    /// Any other failure, with its message.
    Custom(String),
}

/// The human-readable message of an error.
pub open spec fn error_message(e: AzureError) -> Seq<char> {
    match e {
        AzureError::CliNotFound => "Azure CLI is not installed or not accessible. Please install Azure CLI and ensure it's in your PATH."@,
        AzureError::Authentication => "Not authenticated with Azure. Please run 'az login' first."@,
        AzureError::CliExecution { command, error } =>
            "Failed to execute Azure CLI command '"@ + command@ + "': "@ + error@,
        AzureError::CliError { command, stderr } =>
            "Azure CLI error in command '"@ + command@ + "': "@ + stderr@,
        AzureError::JsonParse(m) => "Failed to parse JSON response: "@ + m@,
        AzureError::Io(m) => "IO error: "@ + m@,
        AzureError::Custom(m) => m@,
    }
}

impl AzureError {
    /// The human-readable message of this error.
    pub fn message(&self) -> (r: String)
        ensures
            r@ == error_message(*self),
    {
        match self {
            AzureError::CliNotFound => String::from_str(
                "Azure CLI is not installed or not accessible. Please install Azure CLI and ensure it's in your PATH.",
            ),
            AzureError::Authentication => String::from_str(
                "Not authenticated with Azure. Please run 'az login' first.",
            ),
            AzureError::CliExecution { command, error } => {
                let mut r = String::from_str("Failed to execute Azure CLI command '");
                r.append(command.as_str());
                r.append("': ");
                r.append(error.as_str());
                r
            },
            AzureError::CliError { command, stderr } => {
                let mut r = String::from_str("Azure CLI error in command '");
                r.append(command.as_str());
                r.append("': ");
                r.append(stderr.as_str());
                r
            },
            AzureError::JsonParse(m) => {
                let mut r = String::from_str("Failed to parse JSON response: ");
                r.append(m.as_str());
                r
            },
            AzureError::Io(m) => {
                let mut r = String::from_str("IO error: ");
                r.append(m.as_str());
                r
            },
            AzureError::Custom(m) => m.clone(),
        }
    }
}

} // verus!
