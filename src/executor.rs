//! What a finished invocation of the tool means.
//!
//! The caller spawns the tool with [`invocation_args`], waits for it, and
//! hands the captured outcome to the functions here, which decide between
//! success and the kinds of failure.

use vstd::prelude::*;
use crate::builder::{lemma_push_token, tokens_of};
use crate::codec::{decode_list, dec_shapes, ok_shapes, JsonShape};
use crate::error::AzureError;
use crate::json::JsonValue;
use crate::parse::{parse_output, parsed_json};
use crate::text::{command_line, command_line_string, contains_str, decimal, decimal_string, has_substring};

verus! {

/// What a process that ran to its end left behind.
#[derive(Debug, Clone)]
pub struct ProcessOutput {
    /// Whether it exited with status zero.
    pub success: bool,
    /// Its exit code, if it exited normally.
    pub code: Option<i32>,
    /// What it wrote to its output stream.
    pub stdout: String,
    /// What it wrote to its error stream.
    pub stderr: String,
}

/// The arguments the process receives: the command's own tokens followed by
/// the flag that forces JSON output.
pub open spec fn invocation_tokens(args: Seq<Seq<char>>) -> Seq<Seq<char>> {
    args + seq!["--output"@, "json"@]
}

/// The exit code reported for a failed run: the code, or -1 when the process
/// was ended by a signal.
pub open spec fn reported_code(code: Option<i32>) -> int {
    match code {
        Some(c) => c as int,
        None => -1,
    }
}

/// `e` is the failure that a nonzero exit of `command` with `output` reports:
/// the error stream when it holds anything, else the exit code.
pub open spec fn is_exit_failure(e: AzureError, command: Seq<char>, output: ProcessOutput) -> bool {
    if output.stderr@.len() > 0 {
        e matches AzureError::CliError { command: c, stderr: s } && c@ == command && s == output.stderr
    } else {
        e matches AzureError::CliExecution { command: c, error: m } && c@ == command
            && m@ == "Command failed with exit code: "@ + decimal(reported_code(output.code))
    }
}

/// `r` is the raw result of running `args` with the outcome `spawned`: the
/// output stream verbatim on a zero exit, the exit failure otherwise, and an
/// I/O error carrying the message when the process could not be started.
pub open spec fn is_raw_result(
    r: Result<String, AzureError>,
    args: Seq<Seq<char>>,
    spawned: Result<ProcessOutput, String>,
) -> bool {
    match spawned {
        Err(msg) => r == Err::<String, AzureError>(AzureError::Io(msg)),
        Ok(o) => if o.success {
            r == Ok::<String, AzureError>(o.stdout)
        } else {
            r matches Err(e) && is_exit_failure(e, command_line(args), o)
        },
    }
}

/// The arguments to hand to the process for the command `args`.
pub fn invocation_args(args: &Vec<String>) -> (r: Vec<String>)
    ensures
        tokens_of(r@) == invocation_tokens(tokens_of(args@)),
{
    let mut r: Vec<String> = Vec::new();
    let mut i: usize = 0;
    while i < args.len()
        invariant
            i <= args@.len(),
            tokens_of(r@) == tokens_of(args@).take(i as int),
        decreases args@.len() - i,
    {
        let t = args[i].clone();
        proof {
            lemma_push_token(r@, t);
        }
        r.push(t);
        assert(tokens_of(r@) =~= tokens_of(args@).take(i + 1));
        i = i + 1;
    }
    assert(tokens_of(args@).take(i as int) =~= tokens_of(args@));
    let flag = "--output".to_string();
    proof {
        lemma_push_token(r@, flag);
    }
    r.push(flag);
    let format = "json".to_string();
    proof {
        lemma_push_token(r@, format);
    }
    r.push(format);
    assert(tokens_of(r@) =~= invocation_tokens(tokens_of(args@)));
    r
}

/// The arguments of the probe that tells whether the tool is installed.
pub fn version_probe_args() -> (r: Vec<String>)
    ensures
        tokens_of(r@) == seq!["--version"@],
{
    let mut r: Vec<String> = Vec::new();
    r.push("--version".to_string());
    assert(tokens_of(r@) =~= seq!["--version"@]);
    r
}

/// The command that shows the logged-in identity, used to test
/// authentication.
pub fn authentication_probe_args() -> (r: Vec<String>)
    ensures
        tokens_of(r@) == seq!["account"@, "show"@],
{
    let mut r: Vec<String> = Vec::new();
    r.push("account".to_string());
    r.push("show".to_string());
    assert(tokens_of(r@) =~= seq!["account"@, "show"@]);
    r
}

impl AzureError {
    /// The failure that a nonzero exit of `command` reports: the error
    /// stream when it holds anything, else the exit code.
    pub fn from_command_output(command: &str, output: ProcessOutput) -> (r: AzureError)
        ensures
            is_exit_failure(r, command@, output),
    {
        if output.stderr.as_str().unicode_len() > 0 {
            AzureError::CliError { command: command.to_string(), stderr: output.stderr }
        } else {
            let code: i32 = match output.code {
                Some(c) => c,
                None => -1,
            };
            let mut error = String::from_str("Command failed with exit code: ");
            let digits = decimal_string(code as i64);
            error.append(digits.as_str());
            AzureError::CliExecution { command: command.to_string(), error }
        }
    }
}

/// Decides the raw result of running the command `args`, given what running
/// it gave: the output stream verbatim on a zero exit (even when empty).
pub fn raw_outcome(args: &Vec<String>, spawned: Result<ProcessOutput, String>) -> (r: Result<
    String,
    AzureError,
>)
    ensures
        is_raw_result(r, tokens_of(args@), spawned),
{
    match spawned {
        Err(msg) => Err(AzureError::Io(msg)),
        Ok(o) => {
            if o.success {
                Ok(o.stdout)
            } else {
                let command = command_line_string(args);
                Err(AzureError::from_command_output(command.as_str(), o))
            }
        },
    }
}

/// Output that structured decoding may start from: an empty output stream
/// of a successful run is a failure of its own, distinct from a decoding
/// failure; anything else passes unchanged.
pub fn require_output(args: &Vec<String>, raw: Result<String, AzureError>) -> (r: Result<
    String,
    AzureError,
>)
    ensures
        match raw {
            Ok(s) => if s@.len() == 0 {
                r matches Err(AzureError::CliExecution { command, error }) && command@ == command_line(
                    tokens_of(args@),
                ) && error@ == "Empty output"@
            } else {
                r == raw
            },
            Err(_) => r == raw,
        },
{
    match raw {
        Ok(s) => {
            if s.as_str().unicode_len() == 0 {
                let command = command_line_string(args);
                Err(AzureError::CliExecution { command, error: String::from_str("Empty output") })
            } else {
                Ok(s)
            }
        },
        Err(e) => Err(e),
    }
}

/// `r` is what structured decoding makes of the raw result `raw` of running
/// `args`, given what decoding a parsed tree gives (`decoded`): failures pass
/// through, an empty output is a failure of its own, text that is not JSON is
/// a decoding failure.
pub open spec fn is_structured_result<T>(
    r: Result<T, AzureError>,
    args: Seq<Seq<char>>,
    raw: Result<String, AzureError>,
    decoded: spec_fn(JsonValue, Result<T, AzureError>) -> bool,
) -> bool {
    match raw {
        Err(e) => r matches Err(e2) && e2 == e,
        Ok(s) => if s@.len() == 0 {
            r matches Err(AzureError::CliExecution { command, error }) && command@ == command_line(args)
                && error@ == "Empty output"@
        } else {
            match parsed_json(s@) {
                None => r matches Err(AzureError::JsonParse(_)),
                Some(j) => decoded(j, r),
            }
        },
    }
}

/// Structured execution: decodes the raw result of running `args` as one
/// record of type `T`.
pub fn decode_output<T: JsonShape>(args: &Vec<String>, raw: Result<String, AzureError>) -> (r:
    Result<T, AzureError>)
    ensures
        is_structured_result(
            r,
            tokens_of(args@),
            raw,
            |j: JsonValue, r: Result<T, AzureError>|
                match r {
                    Ok(x) => T::decodes(j, x),
                    Err(e) => !T::decodable(j) && e is JsonParse,
                },
        ),
{
    let text = match require_output(args, raw) {
        Ok(s) => s,
        Err(e) => {
            return Err(e);
        },
    };
    let j = match parse_output(text.as_str()) {
        Ok(j) => j,
        Err(e) => {
            return Err(e);
        },
    };
    T::from_json(&j)
}

/// Structured execution: decodes the raw result of running `args` as an
/// array of records of type `T`.
pub fn decode_output_list<T: JsonShape>(args: &Vec<String>, raw: Result<String, AzureError>) -> (r:
    Result<Vec<T>, AzureError>)
    ensures
        is_structured_result(
            r,
            tokens_of(args@),
            raw,
            |j: JsonValue, r: Result<Vec<T>, AzureError>|
                match r {
                    Ok(x) => dec_shapes(j, x),
                    Err(e) => !ok_shapes::<T>(j) && e is JsonParse,
                },
        ),
{
    let text = match require_output(args, raw) {
        Ok(s) => s,
        Err(e) => {
            return Err(e);
        },
    };
    let j = match parse_output(text.as_str()) {
        Ok(j) => j,
        Err(e) => {
            return Err(e);
        },
    };
    decode_list::<T>(&j)
}

/// What the authentication probe's raw result means: success means logged
/// in; a tool error whose error stream mentions `az login` means that no one
/// is; any other failure passes through unchanged.
pub open spec fn authentication_outcome(raw: Result<String, AzureError>) -> Result<(), AzureError> {
    match raw {
        Ok(_) => Ok(()),
        Err(e) => if e matches AzureError::CliError { stderr, .. } && has_substring(
            stderr@,
            "az login"@,
        ) {
            Err(AzureError::Authentication)
        } else {
            Err(e)
        },
    }
}

/// Classifies the result of the authentication probe.
pub fn classify_authentication(raw: Result<String, AzureError>) -> (r: Result<(), AzureError>)
    ensures
        r == authentication_outcome(raw),
{
    match raw {
        Ok(_) => Ok(()),
        Err(AzureError::CliError { command, stderr }) => {
            if contains_str(stderr.as_str(), "az login") {
                Err(AzureError::Authentication)
            } else {
                Err(AzureError::CliError { command, stderr })
            }
        },
        Err(e) => Err(e),
    }
}

/// A run of the authentication probe that exits nonzero is classified by its
/// error stream: when it mentions `az login`, authentication is required;
/// otherwise the failure stays a generic execution failure (the tool's error
/// text, or its exit code when the error stream is empty).
pub proof fn lemma_login_hint_classification(
    args: Seq<Seq<char>>,
    output: ProcessOutput,
    raw: Result<String, AzureError>,
)
    requires
        !output.success,
        is_raw_result(raw, args, Ok(output)),
    ensures
        has_substring(output.stderr@, "az login"@) ==> authentication_outcome(raw) == Err::<
            (),
            AzureError,
        >(AzureError::Authentication),
        !has_substring(output.stderr@, "az login"@) ==> (authentication_outcome(raw) matches Err(e)
            && (e is CliError || e is CliExecution)),
{
    reveal_strlit("az login");
    if has_substring(output.stderr@, "az login"@) {
        let i = choose|i: int|
            0 <= i && i + "az login"@.len() <= output.stderr@.len() && #[trigger] output.stderr@.subrange(
                i,
                i + "az login"@.len(),
            ) == "az login"@;
        assert(output.stderr@.len() > 0);
    }
}

/// Classifies the result of the installation probe: a run that exits with
/// status zero means the tool is available; anything else, a failure to
/// start included, means it is not.
pub fn classify_probe(spawned: &Result<ProcessOutput, String>) -> (r: Result<(), AzureError>)
    ensures
        r == (if spawned matches Ok(o) && o.success {
            Ok::<(), AzureError>(())
        } else {
            Err::<(), AzureError>(AzureError::CliNotFound)
        }),
{
    match spawned {
        Ok(o) => if o.success {
            Ok(())
        } else {
            Err(AzureError::CliNotFound)
        },
        Err(_) => Err(AzureError::CliNotFound),
    }
}

} // verus!
