//! One-shot invocation results and their failure rendering.

use vstd::prelude::*;

use crate::bytes::trim_spec;
use crate::bytes::trim_bytes;
use crate::bytes::int_dec_seq;
use crate::bytes::i32_to_dec;
use crate::bytes::append_bytes;
use crate::errors::BridgeError;

verus! {

/// The mathematical value of a one-shot command result.
pub struct CommandModel {
    pub success: bool,
    pub code: i32,
    pub stdout: Seq<u8>,
    pub stderr: Seq<u8>,
}

/// The fully buffered outcome of a one-shot worker invocation.
#[derive(Debug, Clone, PartialEq, Eq)]
pub struct CommandResult {
    pub success: bool,
    pub code: i32,
    pub stdout: Vec<u8>,
    pub stderr: Vec<u8>,
}

impl View for CommandResult {
    type V = CommandModel;

    open spec fn view(&self) -> CommandModel {
        CommandModel {
            success: self.success,
            code: self.code,
            stdout: self.stdout@,
            stderr: self.stderr@,
        }
    }
}

/// Builds the result of a completed invocation: the exit code defaults to -1
/// when the process was ended by a signal and reported none.
pub fn command_result(success: bool, code: Option<i32>, stdout: Vec<u8>, stderr: Vec<u8>) -> (r:
    CommandResult)
    ensures
        r.success == success,
        code matches Some(c) ==> r.code == c,
        code is None ==> r.code == -1,
        r.stdout == stdout,
        r.stderr == stderr,
{
    CommandResult {
        success,
        code: match code {
            Some(c) => c,
            None => -1,
        },
        stdout,
        stderr,
    }
}

/// The bytes of ` failed (exit code `.
pub open spec fn failed_part() -> Seq<u8> {
    seq![
        32u8,
        102u8,
        97u8,
        105u8,
        108u8,
        101u8,
        100u8,
        32u8,
        40u8,
        101u8,
        120u8,
        105u8,
        116u8,
        32u8,
        99u8,
        111u8,
        100u8,
        101u8,
        32u8,
    ]
}

/// The bytes of `send`.
pub open spec fn send_word() -> Seq<u8> {
    seq![115u8, 101u8, 110u8, 100u8]
}

/// The bytes of `discover`.
pub open spec fn discover_word() -> Seq<u8> {
    seq![100u8, 105u8, 115u8, 99u8, 111u8, 118u8, 101u8, 114u8]
}

/// The rendered failure message of a one-shot invocation:
/// `<command> failed (exit code <code>)`, followed by the trimmed stderr and
/// then the trimmed stdout, each on its own line and only when non-empty
/// (stderr first: it usually carries the diagnostic).
pub open spec fn render_error_spec(command: Seq<u8>, out: CommandModel) -> Seq<u8> {
    let head = command + failed_part() + int_dec_seq(out.code as int) + seq![41u8];
    let with_err = if trim_spec(out.stderr).len() > 0 {
        head + seq![10u8] + trim_spec(out.stderr)
    } else {
        head
    };
    if trim_spec(out.stdout).len() > 0 {
        with_err + seq![10u8] + trim_spec(out.stdout)
    } else {
        with_err
    }
}

/// Renders the failure message for a completed invocation of `command`.
pub fn render_cli_error(command: &[u8], output: &CommandResult) -> (r: Vec<u8>)
    ensures
        r@ == render_error_spec(command@, output@),
{
    let mut r: Vec<u8> = Vec::new();
    append_bytes(&mut r, command);
    r.push(32);
    r.push(102);
    r.push(97);
    r.push(105);
    r.push(108);
    r.push(101);
    r.push(100);
    r.push(32);
    r.push(40);
    r.push(101);
    r.push(120);
    r.push(105);
    r.push(116);
    r.push(32);
    r.push(99);
    r.push(111);
    r.push(100);
    r.push(101);
    r.push(32);
    assert(r@ =~= command@ + failed_part());
    let digits = i32_to_dec(output.code);
    append_bytes(&mut r, digits.as_slice());
    r.push(41);
    assert(r@ =~= command@ + failed_part() + int_dec_seq(output.code as int) + seq![41u8]);
    let stderr_trimmed = trim_bytes(output.stderr.as_slice());
    if stderr_trimmed.len() > 0 {
        r.push(10);
        append_bytes(&mut r, stderr_trimmed.as_slice());
    }
    let ghost with_err = r@;
    let stdout_trimmed = trim_bytes(output.stdout.as_slice());
    if stdout_trimmed.len() > 0 {
        r.push(10);
        append_bytes(&mut r, stdout_trimmed.as_slice());
    }
    assert(r@ =~= render_error_spec(command@, output@));
    r
}

/// Checks a completed send invocation: a success is returned as it is, a
/// non-zero exit becomes the rendered `NonZeroExit` failure.
pub fn process_send_output(output: CommandResult) -> (r: Result<CommandResult, BridgeError>)
    ensures
        output.success ==> r == Ok::<CommandResult, BridgeError>(output),
        !output.success ==> (r matches Err(BridgeError::NonZeroExit(m)) && m@ == render_error_spec(
            send_word(),
            output@,
        )),
{
    if output.success {
        Ok(output)
    } else {
        let mut w: Vec<u8> = Vec::new();
        w.push(115);
        w.push(101);
        w.push(110);
        w.push(100);
        assert(w@ =~= send_word());
        let message = render_cli_error(w.as_slice(), &output);
        Err(BridgeError::NonZeroExit(message))
    }
}

/// Clamps a caller-supplied discovery timeout: 3000 ms when absent, and
/// never below 100 ms. The worker enforces the timeout itself; the bridge
/// only fixes the argument.
pub fn clamp_discover_timeout(timeout_ms: Option<u64>) -> (t: u64)
    ensures
        timeout_ms is None ==> t == 3000,
        timeout_ms matches Some(v) ==> t == (if v < 100 {
            100u64
        } else {
            v
        }),
{
    match timeout_ms {
        None => 3000,
        Some(v) => if v < 100 {
            100
        } else {
            v
        },
    }
}

/// Validates a send request before anything is spawned: the path must be
/// non-blank, the port in 1-65535, and a supplied host non-blank.
pub fn validate_send_request(path: &[u8], host: &Option<Vec<u8>>, port: u16) -> (r: Result<
    (),
    BridgeError,
>)
    ensures
        trim_spec(path@).len() == 0 ==> r == Err::<(), BridgeError>(BridgeError::EmptyPath),
        trim_spec(path@).len() > 0 && port == 0 ==> r == Err::<(), BridgeError>(
            BridgeError::InvalidPort,
        ),
        trim_spec(path@).len() > 0 && port != 0 ==> match host {
            Some(h) => if trim_spec(h@).len() == 0 {
                r == Err::<(), BridgeError>(BridgeError::EmptyHost)
            } else {
                r == Ok::<(), BridgeError>(())
            },
            None => r == Ok::<(), BridgeError>(()),
        },
{
    let path_trimmed = trim_bytes(path);
    if path_trimmed.len() == 0 {
        return Err(BridgeError::EmptyPath);
    }
    if port == 0 {
        return Err(BridgeError::InvalidPort);
    }
    match host {
        Some(h) => {
            let host_trimmed = trim_bytes(h.as_slice());
            if host_trimmed.len() == 0 {
                Err(BridgeError::EmptyHost)
            } else {
                Ok(())
            }
        },
        None => Ok(()),
    }
}

} // verus!
