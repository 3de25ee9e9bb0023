//! What a command leaves behind: the report of a turn, how it is made of
//! a finished process or of a failure, and how it is written as the next
//! message.

use crate::error::{AgentError, AgentErrorView, Stream};
use crate::yaml::{entries_view, mapping_to_yaml, yaml_text, Scalar, ScalarView};
use vstd::prelude::*;
use vstd::string::StringExecFns;
use vstd::utf8::{decode_utf8, valid_utf8};

verus! {

/// The error of `String::from_utf8`. Nothing is read from it.
#[verifier::external_type_specification]
#[verifier::external_body]
pub struct ExFromUtf8Error(std::string::FromUtf8Error);

/// `String::from_utf8` succeeds exactly on valid UTF-8, and then gives the
/// text that the bytes encode.
pub assume_specification[ String::from_utf8 ](vec: Vec<u8>) -> (text: Result<
    String,
    std::string::FromUtf8Error,
>)
    ensures
        text is Ok <==> valid_utf8(vec@),
        text matches Ok(s) ==> s@ == decode_utf8(vec@),
;

/// What running a command gave, as reported to the model.
#[derive(Debug, Clone, PartialEq, Eq)]
pub struct CommandOutput {
    pub stdout: String,
    pub stderr: String,
    pub exit_code: Option<i32>,
}

/// A `CommandOutput` with its texts as sequences of characters.
pub struct CommandOutputView {
    pub stdout: Seq<char>,
    pub stderr: Seq<char>,
    pub exit_code: Option<i32>,
}

impl View for CommandOutput {
    type V = CommandOutputView;

    open spec fn view(&self) -> CommandOutputView {
        CommandOutputView {
            stdout: self.stdout@,
            stderr: self.stderr@,
            exit_code: self.exit_code,
        }
    }
}

/// What a finished process left behind, before its streams are decoded.
#[derive(Debug, Clone, PartialEq, Eq)]
pub struct Execution {
    pub stdout: Vec<u8>,
    pub stderr: Vec<u8>,
    pub exit_code: Option<i32>,
}

/// An `Execution` with its streams as sequences of bytes.
pub struct ExecutionView {
    pub stdout: Seq<u8>,
    pub stderr: Seq<u8>,
    pub exit_code: Option<i32>,
}

impl View for Execution {
    type V = ExecutionView;

    open spec fn view(&self) -> ExecutionView {
        ExecutionView { stdout: self.stdout@, stderr: self.stderr@, exit_code: self.exit_code }
    }
}

/// The report of a reply that could not be read as a directive.
pub open spec fn parse_failure(cause: Seq<char>) -> CommandOutputView {
    CommandOutputView { stdout: "Error parsing response"@, stderr: cause, exit_code: None }
}

/// The report of a command that could not be started.
pub open spec fn spawn_failure(description: Seq<char>) -> CommandOutputView {
    CommandOutputView {
        stdout: "Error trying to run command"@,
        stderr: description,
        exit_code: None,
    }
}

/// The report of a finished process, or the stream that is not UTF-8:
/// standard output is looked at first.
pub open spec fn decoded(execution: ExecutionView) -> Result<CommandOutputView, Stream> {
    if !valid_utf8(execution.stdout) {
        Err(Stream::Stdout)
    } else if !valid_utf8(execution.stderr) {
        Err(Stream::Stderr)
    } else {
        Ok(
            CommandOutputView {
                stdout: decode_utf8(execution.stdout),
                stderr: decode_utf8(execution.stderr),
                exit_code: execution.exit_code,
            },
        )
    }
}

/// The report of what running a command gave: of the failure to start it,
/// or of the finished process. The error names the stream that is not UTF-8.
pub open spec fn reported(ran: Result<ExecutionView, Seq<char>>) -> Result<
    CommandOutputView,
    Stream,
> {
    match ran {
        Err(description) => Ok(spawn_failure(description)),
        Ok(execution) => decoded(execution),
    }
}

/// The entries that report `output`: its three fields under their names, in
/// the order standard output, standard error, exit code.
pub open spec fn report(output: CommandOutputView) -> Seq<(Seq<char>, ScalarView)> {
    seq![
        ("stdout"@, ScalarView::Text(output.stdout)),
        ("stderr"@, ScalarView::Text(output.stderr)),
        (
            "exit_code"@,
            match output.exit_code {
                Some(code) => ScalarView::Integer(code as int),
                None => ScalarView::Null,
            },
        ),
    ]
}

impl CommandOutput {
    /// The report of a reply that could not be read as a directive.
    pub fn parse_failure(cause: String) -> (output: CommandOutput)
        ensures
            output@ == parse_failure(cause@),
    {
        CommandOutput {
            stdout: String::from_str("Error parsing response"),
            stderr: cause,
            exit_code: None,
        }
    }

    /// The report of a command that could not be started.
    pub fn spawn_failure(description: String) -> (output: CommandOutput)
        ensures
            output@ == spawn_failure(description@),
    {
        CommandOutput {
            stdout: String::from_str("Error trying to run command"),
            stderr: description,
            exit_code: None,
        }
    }

    /// The report of a finished process: both streams decoded as UTF-8. The
    /// error names the first stream that is not UTF-8.
    pub fn decode(execution: Execution) -> (output: Result<CommandOutput, AgentError>)
        ensures
            match output {
                Ok(output) => decoded(execution@) == Ok::<CommandOutputView, Stream>(output@),
                Err(error) => decoded(execution@) is Err && error@ == AgentErrorView::InvalidUtf8(
                    decoded(execution@)->Err_0,
                ),
            },
    {
        let Execution { stdout, stderr, exit_code } = execution;
        match String::from_utf8(stdout) {
            Err(_) => Err(AgentError::InvalidUtf8(Stream::Stdout)),
            Ok(stdout) => match String::from_utf8(stderr) {
                Err(_) => Err(AgentError::InvalidUtf8(Stream::Stderr)),
                Ok(stderr) => Ok(CommandOutput { stdout, stderr, exit_code }),
            },
        }
    }

    /// The entries that report this output.
    pub fn entries(&self) -> (entries: Vec<(String, Scalar)>)
        ensures
            entries_view(entries@) == report(self@),
    {
        let code = match self.exit_code {
            Some(code) => Scalar::Integer(code as i64),
            None => Scalar::Null,
        };
        let mut entries: Vec<(String, Scalar)> = Vec::new();
        entries.push((String::from_str("stdout"), Scalar::Text(self.stdout.clone())));
        entries.push((String::from_str("stderr"), Scalar::Text(self.stderr.clone())));
        entries.push((String::from_str("exit_code"), code));
        entries
    }

    /// This output as structured text, the whole of the next message. The
    /// text is what `serde_yml` writes for the three entries; an error is
    /// the encoder's.
    pub fn encode(&self) -> (encoded: Result<String, AgentError>)
        ensures
            match encoded {
                Ok(text) => yaml_text(report(self@)) == Some(text@),
                Err(error) => yaml_text(report(self@)) is None && error is Encode,
            },
    {
        let entries = self.entries();
        match mapping_to_yaml(&entries) {
            Ok(text) => Ok(text),
            Err(error) => Err(AgentError::Encode(error.to_string())),
        }
    }
}

} // verus!
