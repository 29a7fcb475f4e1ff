//! Remote commands: what is asked of the transport, and what is made of
//! what it reports.

use crate::error::{prefixed, SSHError, SSHErrorView};
use crate::text::{format_signed, signed_decimal};
use vstd::prelude::*;

verus! {

/// Limit of a liveness probe, in milliseconds, whatever the configuration says.
pub const PROBE_TIMEOUT: u64 = 5_000;

/// One command for the transport to run on the live channel.
#[derive(Debug)]
pub struct CommandRequest {
    pub program: String,
    pub args: Vec<String>,
    /// Limit for the command, in milliseconds.
    pub timeout: u64,
}

/// What the transport reports of one command.
#[derive(Debug)]
pub enum CommandOutcome {
    /// The command ran to its end. `exit_code` is absent where the remote
    /// process ended without one.
    Finished { stdout: Vec<u8>, stderr: Vec<u8>, exit_code: Option<i32> },
    /// The limit elapsed first.
    TimedOut,
    /// The channel failed under the command, with the transport's description.
    ChannelFailed(String),
}

/// The texts of a list of strings.
pub open spec fn texts(list: Seq<String>) -> Seq<Seq<char>> {
    Seq::new(list.len(), |i: int| list[i]@)
}

/// The request that runs `command` in a login shell.
pub open spec fn is_shell_request(req: CommandRequest, command: Seq<char>, timeout: u64) -> bool {
    &&& req.program@ == "bash"@
    &&& texts(req.args@) == seq!["-lc"@, command]
    &&& req.timeout == timeout
}

/// The request of a liveness probe: the program `echo` with one argument.
pub open spec fn is_probe_request(req: CommandRequest) -> bool {
    &&& req.program@ == "echo"@
    &&& texts(req.args@) == seq!["test"@]
    &&& req.timeout == PROBE_TIMEOUT
}

/// The text that `String::from_utf8_lossy` makes of `bytes`: valid UTF-8 is
/// decoded, and each invalid sequence becomes the replacement character.
pub uninterp spec fn utf8_lossy(bytes: Seq<u8>) -> Seq<char>;

/// Calls `String::from_utf8_lossy`. The result is named, not described: it
/// depends on the bytes alone.
#[verifier::external_body]
fn decode_lossy(bytes: &Vec<u8>) -> (text: String)
    ensures
        text@ == utf8_lossy(bytes@),
{
    String::from_utf8_lossy(bytes).into_owned()
}

/// How an exit status is written in a message.
pub open spec fn status_text(exit_code: Option<i32>) -> Seq<char> {
    match exit_code {
        Some(code) => signed_decimal(code as int),
        None => "unknown"@,
    }
}

/// The result of a command that ran to its end: its output where it exited
/// with status zero, whatever it wrote to standard error; else an error
/// that carries the status and the captured standard error.
pub open spec fn judged(exit_code: Option<i32>, stdout: Seq<char>, stderr: Seq<char>) -> Result<
    Seq<char>,
    SSHErrorView,
> {
    if exit_code == Some(0i32) {
        Ok(stdout)
    } else {
        Err(
            SSHErrorView::CommandExecutionFailed(
                "Command failed with status: "@ + status_text(exit_code) + ", stderr: "@ + stderr,
            ),
        )
    }
}

/// The result of a command, from what the transport reported.
pub open spec fn output_of(outcome: CommandOutcome) -> Result<Seq<char>, SSHErrorView> {
    match outcome {
        CommandOutcome::Finished { stdout, stderr, exit_code } => judged(
            exit_code,
            utf8_lossy(stdout@),
            utf8_lossy(stderr@),
        ),
        CommandOutcome::TimedOut => Err(
            SSHErrorView::TimeoutError("Command execution timed out"@),
        ),
        CommandOutcome::ChannelFailed(reason) => Err(
            SSHErrorView::CommandExecutionFailed("Failed to execute command: "@ + reason@),
        ),
    }
}

/// The mathematical value of a command's result.
pub open spec fn result_view(r: Result<String, SSHError>) -> Result<Seq<char>, SSHErrorView> {
    match r {
        Ok(text) => Ok(text@),
        Err(e) => Err(e@),
    }
}

/// Whether the outcome is a command that ran to its end with status zero.
pub open spec fn succeeded(outcome: CommandOutcome) -> bool {
    outcome matches CommandOutcome::Finished { exit_code, .. } && exit_code == Some(0i32)
}

/// Judges a command that ran to its end, from its exit status and its
/// decoded output.
pub fn judge_command(exit_code: Option<i32>, stdout: String, stderr: String) -> (r: Result<
    String,
    SSHError,
>)
    ensures
        result_view(r) == judged(exit_code, stdout@, stderr@),
{
    let status = match exit_code {
        Some(code) => {
            if code == 0 {
                return Ok(stdout);
            }
            format_signed(code)
        },
        None => String::from_str("unknown"),
    };
    let mut message = String::from_str("Command failed with status: ");
    message.append(status.as_str());
    message.append(", stderr: ");
    message.append(stderr.as_str());
    assert(message@ =~= "Command failed with status: "@ + status_text(exit_code) + ", stderr: "@
        + stderr@);
    Err(SSHError::CommandExecutionFailed(message))
}

/// The result of a command, from what the transport reported. Captured
/// bytes are decoded lossily.
pub fn command_output(outcome: &CommandOutcome) -> (r: Result<String, SSHError>)
    ensures
        result_view(r) == output_of(*outcome),
{
    match outcome {
        CommandOutcome::Finished { stdout, stderr, exit_code } => judge_command(
            *exit_code,
            decode_lossy(stdout),
            decode_lossy(stderr),
        ),
        CommandOutcome::TimedOut => Err(
            SSHError::TimeoutError(String::from_str("Command execution timed out")),
        ),
        CommandOutcome::ChannelFailed(reason) => Err(
            SSHError::CommandExecutionFailed(
                prefixed("Failed to execute command: ", reason.as_str()),
            ),
        ),
    }
}

/// Whether a command ran to its end with status zero.
pub fn command_succeeded(outcome: &CommandOutcome) -> (ok: bool)
    ensures
        ok == succeeded(*outcome),
{
    match outcome {
        CommandOutcome::Finished { exit_code, .. } => match exit_code {
            Some(code) => *code == 0,
            None => false,
        },
        _ => false,
    }
}

} // verus!
