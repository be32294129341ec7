//! The kernel's built-in tools: writing files and running shell commands.
//! What they decide (argument checks, the reports fed back to the agent) is
//! here; the file and process I/O happens around these functions.
use crate::error::{DomainError, DomainResult, is_internal};
use crate::text::{join2, join3, trimmed, trim, utf8_lossy, spec_utf8_lossy};
use crate::tool::ToolCallResult;
use vstd::prelude::*;

verus! {

/// The tool that writes a file.
#[derive(Debug, Clone, Copy)]
pub struct FileSystemTool;

/// The tool that runs a shell command.
#[derive(Debug, Clone, Copy)]
pub struct ShellTool;

/// The JSON schema of the file-writing tool's arguments.
pub open spec fn fs_write_schema() -> Seq<char> {
    FS_SCHEMA@
}

/// The JSON schema of the shell tool's arguments.
pub open spec fn shell_schema() -> Seq<char> {
    SHELL_SCHEMA@
}

/// The error for a missing argument.
pub open spec fn missing_argument(arg: Seq<char>) -> Seq<char> {
    "Missing '"@ + arg + "' argument"@
}

/// The report fed back after writing `path`: `failure` is the error's text
/// where the write failed.
pub open spec fn write_report(path: Seq<char>, failure: Option<Seq<char>>) -> (Seq<char>, bool) {
    match failure {
        None => ("Successfully wrote to "@ + path, false),
        Some(e) => ("Error writing file: "@ + e, true),
    }
}

/// The report fed back after a command ran, from its decoded output: plain
/// standard output for a quiet success; otherwise both streams, labelled.
/// Leading and trailing whitespace is trimmed. Only a failed exit status
/// counts as an error; output on standard error alone does not.
pub open spec fn shell_report(out: Seq<char>, err: Seq<char>, success: bool) -> (Seq<char>, bool) {
    if !success || err.len() > 0 {
        (trimmed("STDOUT:\n"@ + out + "\nSTDERR:\n"@ + err), !success)
    } else {
        (trimmed(out), false)
    }
}

impl FileSystemTool {
    /// The tool's name, `fs_write`.
    pub fn name(&self) -> (r: &'static str)
        ensures
            r@ == "fs_write"@,
    {
        "fs_write"
    }

    /// The JSON schema of the tool's arguments.
    pub fn schema(&self) -> (r: &'static str)
        ensures
            r@ == fs_write_schema(),
    {
        FS_SCHEMA
    }

    /// The path and content to write, from the call's arguments; an error
    /// names the first argument that is missing.
    pub fn write_request(&self, path: Option<&str>, content: Option<&str>) -> (r: DomainResult<
        (String, String),
    >)
        ensures
            path is None ==> (r matches Err(e) && is_internal(e, missing_argument("path"@))),
            path is Some && content is None ==> (r matches Err(e) && is_internal(
                e,
                missing_argument("content"@),
            )),
            path is Some && content is Some ==> (r matches Ok((p2, c2)) && p2@ == path.unwrap()@
                && c2@ == content.unwrap()@),
    {
        match path {
            None => Err(DomainError::Internal(join3("Missing '", "path", "' argument"))),
            Some(p) => match content {
                None => Err(DomainError::Internal(join3("Missing '", "content", "' argument"))),
                Some(c) => Ok((String::from_str(p), String::from_str(c))),
            },
        }
    }

    /// The report fed back to the agent after writing `path`.
    pub fn write_outcome(&self, path: &str, failure: Option<&str>) -> (r: ToolCallResult)
        ensures
            r.tool_name@ == "fs_write"@,
            (r.result@, r.is_error) == write_report(
                path@,
                match failure {
                    Some(e) => Some(e@),
                    None => None,
                },
            ),
    {
        match failure {
            None => ToolCallResult {
                tool_name: String::from_str("fs_write"),
                result: join2("Successfully wrote to ", path),
                is_error: false,
            },
            Some(e) => ToolCallResult {
                tool_name: String::from_str("fs_write"),
                result: join2("Error writing file: ", e),
                is_error: true,
            },
        }
    }
}

impl ShellTool {
    /// The tool's name, `shell_execute`.
    pub fn name(&self) -> (r: &'static str)
        ensures
            r@ == "shell_execute"@,
    {
        "shell_execute"
    }

    /// The JSON schema of the tool's arguments.
    pub fn schema(&self) -> (r: &'static str)
        ensures
            r@ == shell_schema(),
    {
        SHELL_SCHEMA
    }

    /// The command to run, from the call's arguments.
    pub fn command(&self, command: Option<&str>) -> (r: DomainResult<String>)
        ensures
            command is None ==> (r matches Err(e) && is_internal(e, missing_argument("command"@))),
            command matches Some(c) ==> (r matches Ok(s) && s@ == c@),
    {
        match command {
            None => Err(DomainError::Internal(join3("Missing '", "command", "' argument"))),
            Some(c) => Ok(String::from_str(c)),
        }
    }

    /// The error for a command that could not be started.
    pub fn launch_error(&self, cause: &str) -> (e: DomainError)
        ensures
            is_internal(e, "Failed to execute command: "@ + cause@),
    {
        DomainError::Internal(join2("Failed to execute command: ", cause))
    }

    /// The report fed back to the agent after a command ran, from the raw
    /// bytes of its standard output and standard error and whether its
    /// exit status was a success. The bytes are decoded as UTF-8 with
    /// invalid sequences replaced.
    pub fn outcome(&self, stdout: &[u8], stderr: &[u8], success: bool) -> (r: ToolCallResult)
        ensures
            r.tool_name@ == "shell_execute"@,
            (r.result@, r.is_error) == shell_report(
                spec_utf8_lossy(stdout@),
                spec_utf8_lossy(stderr@),
                success,
            ),
    {
        let out = utf8_lossy(stdout);
        let err = utf8_lossy(stderr);
        let failed = !success;
        if failed || err.unicode_len() > 0 {
            let mut text = String::from_str("STDOUT:\n");
            text.append(out.as_str());
            text.append("\nSTDERR:\n");
            text.append(err.as_str());
            ToolCallResult {
                tool_name: String::from_str("shell_execute"),
                result: trim(text.as_str()),
                is_error: failed,
            }
        } else {
            ToolCallResult {
                tool_name: String::from_str("shell_execute"),
                result: trim(out.as_str()),
                is_error: false,
            }
        }
    }
}

/// The JSON schema of the file-writing tool's arguments.
pub const FS_SCHEMA: &'static str = r#"{
            "name": "fs_write",
            "description": "Writes content to a file on the local filesystem.",
            "parameters": {
                "type": "object",
                "properties": {
                    "path": {
                        "type": "string",
                        "description": "The relative or absolute path to the file."
                    },
                    "content": {
                        "type": "string",
                        "description": "The content to write into the file."
                    }
                },
                "required": ["path", "content"]
            }
        }"#;

/// The JSON schema of the shell tool's arguments.
pub const SHELL_SCHEMA: &'static str = r#"{
            "name": "shell_execute",
            "description": "Executes a shell command on the host system.",
            "parameters": {
                "type": "object",
                "properties": {
                    "command": {
                        "type": "string",
                        "description": "The bash command to execute."
                    }
                },
                "required": ["command"]
            }
        }"#;

/// A command's report is an error exactly when its exit status is a
/// failure, whatever it printed: output on standard error alone never makes
/// it one, and a failed command with silent streams always does.
pub proof fn law_shell_error_is_exit_failure(out: Seq<char>, err: Seq<char>, success: bool)
    ensures
        shell_report(out, err, success).1 == !success,
{
}

/// A quiet success reports its standard output alone, trimmed; any other
/// run reports both streams, labelled, trimmed.
pub proof fn law_shell_report_text(out: Seq<char>, err: Seq<char>, success: bool)
    ensures
        success && err.len() == 0 ==> shell_report(out, err, success).0 == trimmed(out),
        !success || err.len() > 0 ==> shell_report(out, err, success).0 == trimmed(
            "STDOUT:\n"@ + out + "\nSTDERR:\n"@ + err,
        ),
{
}

/// A write's report is an error exactly when the write failed, and names
/// the path on success and the cause on failure.
pub proof fn law_write_report(path: Seq<char>, failure: Option<Seq<char>>)
    ensures
        write_report(path, failure).1 == (failure is Some),
        failure is None ==> write_report(path, failure).0 == "Successfully wrote to "@ + path,
        failure matches Some(e) ==> write_report(path, failure).0 == "Error writing file: "@ + e,
{
}

} // verus!
