//! The receipt: the record of one invocation.

use vstd::prelude::*;
use vstd::utf8::{encode_utf8, valid_utf8};
use crate::command::{command_of, texts, CommandLine};
use crate::decode::{decode_output, lossy_utf8};
use crate::error::ReceiptError;
use crate::timestamp::Timestamp;

verus! {

/// The exit code that the wrapper reports where the command left none, and
/// where the wrapper itself failed.
pub const FALLBACK_EXIT_CODE: i32 = 1;

/// What a command that was launched and ran to its end leaves behind.
#[derive(Clone, Debug, PartialEq, Eq)]
pub struct Execution {
    /// The code the process exited with; `None` where a signal ended it.
    pub exit_code: Option<i32>,
    /// Everything the process wrote to its standard output.
    pub stdout: Vec<u8>,
    /// Everything the process wrote to its standard error.
    pub stderr: Vec<u8>,
    /// The wall clock just before the launch.
    pub start_time: Timestamp,
    /// The wall clock just after the process ended.
    pub end_time: Timestamp,
    /// The time the run took in milliseconds, by a monotonic clock.
    pub elapsed_millis: u128,
}

/// What a `Receipt` denotes.
pub struct ReceiptView {
    pub command: Seq<char>,
    pub args: Seq<Seq<char>>,
    pub exit_code: Option<i32>,
    pub stdout: Seq<char>,
    pub stderr: Seq<char>,
    pub start_time: int,
    pub end_time: int,
    pub duration_ms: nat,
}

/// The record of one invocation. Once made it does not change.
#[derive(Clone, Debug, PartialEq, Eq)]
pub struct Receipt {
    command: String,
    args: Vec<String>,
    exit_code: Option<i32>,
    stdout: String,
    stderr: String,
    start_time: Timestamp,
    end_time: Timestamp,
    duration_ms: u64,
}

impl View for Receipt {
    type V = ReceiptView;

    closed spec fn view(&self) -> ReceiptView {
        ReceiptView {
            command: self.command@,
            args: texts(self.args@),
            exit_code: self.exit_code,
            stdout: self.stdout@,
            stderr: self.stderr@,
            start_time: self.start_time@,
            end_time: self.end_time@,
            duration_ms: self.duration_ms as nat,
        }
    }
}

/// A count of milliseconds as a receipt holds it: in 64 bits, the higher bits
/// of a longer count dropped.
pub open spec fn duration_ms_of(elapsed_millis: u128) -> nat {
    (elapsed_millis as nat) % 0x1_0000_0000_0000_0000
}

/// The receipt of a run of `command`.
pub open spec fn receipt_of(command: CommandLine, run: Execution) -> ReceiptView {
    ReceiptView {
        command: command@.program,
        args: command@.args,
        exit_code: run.exit_code,
        stdout: lossy_utf8(run.stdout@),
        stderr: lossy_utf8(run.stderr@),
        start_time: run.start_time@,
        end_time: run.end_time@,
        duration_ms: duration_ms_of(run.elapsed_millis),
    }
}

/// The exit code with which the wrapper ends after a receipt was written:
/// that of the command, or the fallback where a signal ended it.
pub open spec fn exit_status_of(receipt: ReceiptView) -> int {
    match receipt.exit_code {
        Some(code) => code as int,
        None => FALLBACK_EXIT_CODE as int,
    }
}

/// The exit code with which the wrapper ends. `written` is the receipt that
/// was written, or `None` where the wrapper itself failed and wrote none.
pub open spec fn wrapper_exit_code(written: Option<ReceiptView>) -> int {
    match written {
        Some(receipt) => exit_status_of(receipt),
        None => FALLBACK_EXIT_CODE as int,
    }
}

/// The exit code with which the wrapper ends: that of the command where a
/// receipt was written and the command exited by itself, the fallback code
/// where a signal ended the command or the wrapper itself failed.
pub fn exit_code_for(written: Option<&Receipt>) -> (code: i32)
    ensures
        code == wrapper_exit_code(
            match written {
                Some(receipt) => Some(receipt@),
                None => None,
            },
        ),
{
    match written {
        Some(receipt) => receipt.exit_status(),
        None => FALLBACK_EXIT_CODE,
    }
}

/// A receipt names the tokens it was made for: the first as the executable, the
/// others as the arguments, each as it stands and in its place, so that the
/// arguments are one fewer than the tokens.
pub proof fn lemma_receipt_names_the_tokens(
    tokens: Seq<Seq<char>>,
    command: CommandLine,
    run: Execution,
)
    requires
        command_of(tokens) == Some(command@),
    ensures
        tokens.len() > 0,
        receipt_of(command, run).command == tokens[0],
        receipt_of(command, run).args.len() == tokens.len() - 1,
        forall|i: int|
            0 <= i < tokens.len() - 1 ==> #[trigger] receipt_of(command, run).args[i] == tokens[i
                + 1],
{
}

/// Where the command exits by itself, its exit code is what the receipt records
/// and what the wrapper ends with, whatever the code is.
pub proof fn lemma_exit_code_passed_on(command: CommandLine, run: Execution, code: i32)
    requires
        run.exit_code == Some(code),
    ensures
        receipt_of(command, run).exit_code == Some(code),
        wrapper_exit_code(Some(receipt_of(command, run))) == code,
{
}

/// Where a signal ends the command, the receipt records no exit code and the
/// wrapper ends with the fallback code.
pub proof fn lemma_signal_gives_fallback(command: CommandLine, run: Execution)
    requires
        run.exit_code is None,
    ensures
        receipt_of(command, run).exit_code is None,
        wrapper_exit_code(Some(receipt_of(command, run))) == FALLBACK_EXIT_CODE,
{
}

/// The duration in a receipt is no negative number and depends on the measured
/// time alone, not on the two readings of the wall clock: a count that fits in
/// 64 bits is recorded as it is, so that of two such counts the longer gives
/// the longer duration. The two readings are recorded as they were taken: where
/// the end is not before the start, the same holds in the receipt.
pub proof fn lemma_duration_and_times(command: CommandLine, run: Execution, other: Execution)
    ensures
        receipt_of(command, run).duration_ms >= 0,
        run.elapsed_millis <= u64::MAX ==> receipt_of(command, run).duration_ms
            == run.elapsed_millis,
        run.elapsed_millis == other.elapsed_millis ==> receipt_of(command, run).duration_ms
            == receipt_of(command, other).duration_ms,
        run.elapsed_millis <= other.elapsed_millis <= u64::MAX ==> receipt_of(
            command,
            run,
        ).duration_ms <= receipt_of(command, other).duration_ms,
        run.start_time@ <= run.end_time@ ==> receipt_of(command, run).start_time <= receipt_of(
            command,
            run,
        ).end_time,
{
}

impl Receipt {
    /// Concludes an invocation of `command`. `launch` is what the attempt to run
    /// it gave: the finished run, or `None` where the executable could not be
    /// launched. A finished run always gives a receipt, whatever its exit code;
    /// a failed launch gives none, and the error names the executable.
    ///
    /// The receipt holds the captured output decoded permissively and in full:
    /// output that is valid UTF-8 is the text whose encoding is the captured
    /// bytes.
    pub fn conclude(command: CommandLine, launch: Option<Execution>) -> (outcome: Result<
        Receipt,
        ReceiptError,
    >)
        ensures
            match outcome {
                Ok(receipt) => launch is Some && receipt@ == receipt_of(command, launch.unwrap()),
                Err(e) => launch is None && e == (ReceiptError::Spawn { command: command.program }),
            },
            outcome matches Ok(receipt) ==> {
                &&& valid_utf8(launch.unwrap().stdout@) ==> encode_utf8(receipt@.stdout)
                    == launch.unwrap().stdout@
                &&& valid_utf8(launch.unwrap().stderr@) ==> encode_utf8(receipt@.stderr)
                    == launch.unwrap().stderr@
            },
    {
        match launch {
            None => Err(ReceiptError::Spawn { command: command.program }),
            Some(run) => {
                let stdout = decode_output(run.stdout.as_slice());
                let stderr = decode_output(run.stderr.as_slice());
                let elapsed: u128 = run.elapsed_millis;
                let duration_ms: u64 = #[verifier::truncate] (elapsed as u64);
                assert(duration_ms as nat == duration_ms_of(elapsed)) by {
                    assert((elapsed as u64) as u128 == elapsed % 0x1_0000_0000_0000_0000u128)
                        by (bit_vector);
                }
                Ok(
                    Receipt {
                        command: command.program,
                        args: command.args,
                        exit_code: run.exit_code,
                        stdout,
                        stderr,
                        start_time: run.start_time,
                        end_time: run.end_time,
                        duration_ms,
                    },
                )
            },
        }
    }

    /// The exit code with which the wrapper ends once this receipt is written.
    pub fn exit_status(&self) -> (status: i32)
        ensures
            status == exit_status_of(self@),
    {
        match self.exit_code {
            Some(code) => code,
            None => FALLBACK_EXIT_CODE,
        }
    }

    /// A receipt with the given fields. Every combination of fields is a
    /// receipt.
    pub fn new(
        command: String,
        args: Vec<String>,
        exit_code: Option<i32>,
        stdout: String,
        stderr: String,
        start_time: Timestamp,
        end_time: Timestamp,
        duration_ms: u64,
    ) -> (receipt: Receipt)
        ensures
            receipt@ == (ReceiptView {
                command: command@,
                args: texts(args@),
                exit_code,
                stdout: stdout@,
                stderr: stderr@,
                start_time: start_time@,
                end_time: end_time@,
                duration_ms: duration_ms as nat,
            }),
    {
        Receipt { command, args, exit_code, stdout, stderr, start_time, end_time, duration_ms }
    }

    /// The executable, as it was given.
    pub fn command(&self) -> (command: &str)
        ensures
            command@ == self@.command,
    {
        self.command.as_str()
    }

    /// The arguments that were handed to the executable, in order.
    pub fn args(&self) -> (args: &Vec<String>)
        ensures
            texts(args@) == self@.args,
    {
        &self.args
    }

    /// The code the command exited with; `None` where a signal ended it.
    pub fn exit_code(&self) -> (exit_code: Option<i32>)
        ensures
            exit_code == self@.exit_code,
    {
        self.exit_code
    }

    /// The command's standard output as text.
    pub fn stdout(&self) -> (stdout: &str)
        ensures
            stdout@ == self@.stdout,
    {
        self.stdout.as_str()
    }

    /// The command's standard error as text.
    pub fn stderr(&self) -> (stderr: &str)
        ensures
            stderr@ == self@.stderr,
    {
        self.stderr.as_str()
    }

    /// The wall clock just before the launch.
    pub fn start_time(&self) -> (start_time: Timestamp)
        ensures
            start_time@ == self@.start_time,
    {
        self.start_time
    }

    /// The wall clock just after the command ended.
    pub fn end_time(&self) -> (end_time: Timestamp)
        ensures
            end_time@ == self@.end_time,
    {
        self.end_time
    }

    /// The time the command took, in milliseconds.
    pub fn duration_ms(&self) -> (duration_ms: u64)
        ensures
            duration_ms == self@.duration_ms,
    {
        self.duration_ms
    }
}

} // verus!
