//! One launch: the prepared invocation, the captured completion, and the
//! judgement that either passes a successful exit through or builds the
//! failure diagnostic.

use vstd::prelude::*;
use crate::diagnostic::{diagnostic_text, render_diagnostic_text, views_of};
use crate::text::push_str;

verus! {

/// What `core::str::from_utf8` decodes a byte sequence to: the character
/// sequence when the bytes are valid UTF-8, nothing otherwise.
pub uninterp spec fn utf8_of(bytes: Seq<u8>) -> Option<Seq<char>>;

/// Relies on `core::str::from_utf8`: whether the bytes decode, and to what,
/// depends on the bytes alone.
#[verifier::external_body]
fn decode_utf8(bytes: &Vec<u8>) -> (r: Option<String>)
    ensures
        r is Some <==> utf8_of(bytes@) is Some,
        r matches Some(s) ==> Some(s@) == utf8_of(bytes@),
{
    match core::str::from_utf8(bytes.as_slice()) {
        Ok(s) => Some(s.to_owned()),
        Err(_) => None,
    }
}

/// One transient request to spawn a child process: the command token, its
/// argument tokens, and the environment bindings to inject into the child's
/// environment.
pub struct Invocation {
    pub cmd: String,
    pub args: Vec<String>,
    pub env: Vec<(String, String)>,
}

/// The captured outcome of one completed child process: whether its exit
/// status was success, the exit code when the process exited (none when a
/// signal ended it), and the raw bytes of its stdout and stderr.
pub struct CompletionResult {
    pub success: bool,
    pub code: Option<i32>,
    pub stdout: Vec<u8>,
    pub stderr: Vec<u8>,
}

/// A fatal launch failure. Every variant aborts the calling test; none is
/// meant to be recovered from.
pub enum LaunchError {
    /// An empty token sequence was handed to a launch: there is no command.
    MissingCommand,
    /// The operating system could not create the child process; the message
    /// carries the underlying OS error text.
    SpawnFailure { message: String },
    /// The child ran to completion but its exit status was not success; the
    /// diagnostic carries the full formatted report.
    NonSuccessExit { diagnostic: String },
    /// Captured stdout or stderr held bytes that are not valid UTF-8, so the
    /// diagnostic could not be rendered.
    OutputDecodeFailure,
}

/// The message a launch failure aborts the calling test with.
pub open spec fn error_message(e: LaunchError) -> Seq<char> {
    match e {
        LaunchError::MissingCommand => "Missing command"@,
        LaunchError::SpawnFailure { message } => "Failed to execute command: "@ + message@,
        LaunchError::NonSuccessExit { diagnostic } => diagnostic@,
        LaunchError::OutputDecodeFailure => "captured output is not valid UTF-8"@,
    }
}

impl LaunchError {
    /// The message this failure aborts the calling test with.
    pub fn message(&self) -> (r: String)
        ensures
            r@ == error_message(*self),
    {
        match self {
            LaunchError::MissingCommand => {
                let mut r = String::new();
                push_str(&mut r, "Missing command");
                proof {
                    assert(r@ =~= error_message(*self));
                }
                r
            },
            LaunchError::SpawnFailure { message } => {
                let mut r = String::new();
                push_str(&mut r, "Failed to execute command: ");
                push_str(&mut r, message.as_str());
                proof {
                    assert(r@ =~= error_message(*self));
                }
                r
            },
            LaunchError::NonSuccessExit { diagnostic } => diagnostic.clone(),
            LaunchError::OutputDecodeFailure => {
                let mut r = String::new();
                push_str(&mut r, "captured output is not valid UTF-8");
                proof {
                    assert(r@ =~= error_message(*self));
                }
                r
            },
        }
    }
}

/// Judges one completed run. A successful exit passes through silently,
/// whatever the child printed. A non-success exit is fatal: its diagnostic
/// carries the colored command line, the status description and each
/// non-empty captured stream, unless a stream's bytes are not valid UTF-8,
/// which is itself fatal at format time.
pub fn evaluate(inv: &Invocation, result: &CompletionResult) -> (r: Result<(), LaunchError>)
    ensures
        r is Ok <==> result.success,
        !result.success ==> match r {
            Ok(_) => false,
            Err(LaunchError::OutputDecodeFailure) => utf8_of(result.stdout@) is None || utf8_of(
                result.stderr@,
            ) is None,
            Err(LaunchError::NonSuccessExit { diagnostic }) => {
                &&& utf8_of(result.stdout@) is Some
                &&& utf8_of(result.stderr@) is Some
                &&& diagnostic@ == diagnostic_text(
                    inv.cmd@,
                    views_of(inv.args@),
                    false,
                    result.code,
                    utf8_of(result.stdout@).unwrap(),
                    utf8_of(result.stderr@).unwrap(),
                )
            },
            Err(_) => false,
        },
{
    if result.success {
        return Ok(());
    }
    let out_text = match decode_utf8(&result.stdout) {
        Some(t) => t,
        None => {
            return Err(LaunchError::OutputDecodeFailure);
        },
    };
    let err_text = match decode_utf8(&result.stderr) {
        Some(t) => t,
        None => {
            return Err(LaunchError::OutputDecodeFailure);
        },
    };
    let diagnostic = render_diagnostic_text(
        &inv.cmd,
        &inv.args,
        result.success,
        &result.code,
        &out_text,
        &err_text,
    );
    Err(LaunchError::NonSuccessExit { diagnostic })
}

} // verus!
