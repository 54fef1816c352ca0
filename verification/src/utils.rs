//! The bounded run of an external command, and what is made of the output of
//! the key tools.

use vstd::prelude::*;
use vstd::utf8::{decode_utf8, valid_utf8};
use crate::config::WireguardConfig;

verus! {

/// The directory that holds one configuration file per tunnel.
pub const TUNNELS_PATH: &'static str = "/etc/wireguard";

/// Which operation on an external process failed at the level of the operating
/// system.
#[derive(Debug, Clone, Copy, PartialEq, Eq, Structural)]
pub enum ProcessError {
    Spawn,
    Wait,
    Kill,
    Read,
}

/// What a finished run hands back: the exit code, where one is known, and the
/// text that the process wrote to its standard output.
pub type CommandOutput = (Option<i32>, String);

/// The operation on the child process that the caller performs next.
#[derive(Debug, Clone, Copy, PartialEq, Eq, Structural)]
pub enum ChildOp {
    /// Wait for the process to exit, for the length of the timeout at most.
    WaitTimeout,
    /// Kill the process, which has outlived the timeout.
    Kill,
    /// Wait for the killed process without a limit, so that none is left behind.
    Wait,
    /// Read what the process wrote to its standard output.
    ReadOutput { code: Option<i32> },
}

/// What came of the operation that was asked for.
#[derive(Debug, PartialEq, Eq)]
pub enum ChildEvent {
    /// The process has exited, with this code where it has one.
    Exited(Option<i32>),
    /// The timeout passed with the process still running.
    TimedOut,
    /// The kill went through.
    Killed,
    /// The standard output as text; empty where none was captured.
    Output(String),
    /// The operating system refused the operation.
    Failed,
}

/// What the runner does after an event: one more operation, or the end of the
/// run with its result.
#[derive(Debug, PartialEq, Eq)]
pub enum RunStep {
    Do(ChildOp),
    Return(Result<CommandOutput, ProcessError>),
}

/// The runner's rule. A process that exits within the timeout is read and
/// nothing else; only one that outlives the timeout is killed, then waited
/// for and read. A timeout is no error: only an operation that the operating
/// system refuses ends the run with one.
pub open spec fn run_step(op: ChildOp, event: ChildEvent) -> RunStep {
    match op {
        ChildOp::WaitTimeout => match event {
            ChildEvent::Exited(code) => RunStep::Do(ChildOp::ReadOutput { code }),
            ChildEvent::TimedOut => RunStep::Do(ChildOp::Kill),
            _ => RunStep::Return(Err(ProcessError::Wait)),
        },
        ChildOp::Kill => match event {
            ChildEvent::Killed => RunStep::Do(ChildOp::Wait),
            _ => RunStep::Return(Err(ProcessError::Kill)),
        },
        ChildOp::Wait => match event {
            ChildEvent::Exited(code) => RunStep::Do(ChildOp::ReadOutput { code }),
            _ => RunStep::Return(Err(ProcessError::Wait)),
        },
        ChildOp::ReadOutput { code } => match event {
            ChildEvent::Output(text) => RunStep::Return(Ok((code, text))),
            _ => RunStep::Return(Err(ProcessError::Read)),
        },
    }
}

/// The first operation of every run.
pub fn start_cmd_with_timeout() -> (op: ChildOp)
    ensures
        op == ChildOp::WaitTimeout,
{
    ChildOp::WaitTimeout
}

/// One step of a bounded run: given the operation that was performed and what
/// came of it, the next operation or the run's result.
pub fn run_cmd_with_timeout(op: ChildOp, event: ChildEvent) -> (step: RunStep)
    ensures
        step == run_step(op, event),
{
    match op {
        ChildOp::WaitTimeout => match event {
            ChildEvent::Exited(code) => RunStep::Do(ChildOp::ReadOutput { code }),
            ChildEvent::TimedOut => RunStep::Do(ChildOp::Kill),
            _ => RunStep::Return(Err(ProcessError::Wait)),
        },
        ChildOp::Kill => match event {
            ChildEvent::Killed => RunStep::Do(ChildOp::Wait),
            _ => RunStep::Return(Err(ProcessError::Kill)),
        },
        ChildOp::Wait => match event {
            ChildEvent::Exited(code) => RunStep::Do(ChildOp::ReadOutput { code }),
            _ => RunStep::Return(Err(ProcessError::Wait)),
        },
        ChildOp::ReadOutput { code } => match event {
            ChildEvent::Output(text) => RunStep::Return(Ok((code, text))),
            _ => RunStep::Return(Err(ProcessError::Read)),
        },
    }
}

/// A process that outlives its timeout is killed, waited for and read, and the
/// run ends with the code and the output that were found: not with an error.
pub proof fn lemma_timeout_is_no_error(code: Option<i32>, output: String)
    ensures
        run_step(ChildOp::WaitTimeout, ChildEvent::TimedOut) == RunStep::Do(ChildOp::Kill),
        run_step(ChildOp::Kill, ChildEvent::Killed) == RunStep::Do(ChildOp::Wait),
        run_step(ChildOp::Wait, ChildEvent::Exited(code)) == RunStep::Do(ChildOp::ReadOutput { code }),
        run_step(ChildOp::ReadOutput { code }, ChildEvent::Output(output)) == RunStep::Return(
            Ok((code, output)),
        ),
{
}

/// A process that exits by itself within the timeout is not killed: it is
/// read, and the run ends with its exit code and all that it wrote.
pub proof fn lemma_exit_in_time_is_returned(code: Option<i32>, output: String)
    ensures
        run_step(ChildOp::WaitTimeout, ChildEvent::Exited(code)) == RunStep::Do(
            ChildOp::ReadOutput { code },
        ),
        run_step(ChildOp::ReadOutput { code }, ChildEvent::Output(output)) == RunStep::Return(
            Ok((code, output)),
        ),
{
}

/// The process is killed only after it has outlived the timeout.
pub proof fn lemma_kill_only_after_timeout(op: ChildOp, event: ChildEvent)
    requires
        run_step(op, event) == RunStep::Do(ChildOp::Kill),
    ensures
        op == ChildOp::WaitTimeout,
        event == ChildEvent::TimedOut,
{
}

/// A run ends with an error only on an event that does not answer the
/// operation: above all on `Failed`.
pub proof fn lemma_error_needs_refusal(op: ChildOp, event: ChildEvent)
    requires
        run_step(op, event) matches RunStep::Return(Err(_)),
    ensures
        !(event is TimedOut && op is WaitTimeout),
        !(event is Exited && (op is WaitTimeout || op is Wait)),
        !(event is Killed && op is Kill),
        !(event is Output && op is ReadOutput),
{
}

/// Why the output of a key tool gave no key.
#[derive(Debug, Clone, Copy, PartialEq, Eq, Structural)]
pub enum KeyGenError {
    /// The tool could not be run.
    Process(ProcessError),
    /// The tool wrote bytes that are not UTF-8.
    NotUtf8,
    /// The tool wrote nothing, or white space alone.
    EmptyOutput,
}

/// A character with the Unicode property `White_Space`.
pub open spec fn is_white_space(c: char) -> bool {
    let u = c as u32;
    ||| 0x09 <= u <= 0x0D
    ||| u == 0x20
    ||| u == 0x85
    ||| u == 0xA0
    ||| u == 0x1680
    ||| 0x2000 <= u <= 0x200A
    ||| u == 0x2028
    ||| u == 0x2029
    ||| u == 0x202F
    ||| u == 0x205F
    ||| u == 0x3000
}

/// A text without the white space that it starts with.
pub open spec fn trimmed_start(text: Seq<char>) -> Seq<char>
    decreases text.len(),
{
    if text.len() > 0 && is_white_space(text[0]) {
        trimmed_start(text.drop_first())
    } else {
        text
    }
}

/// A text without the white space that it ends with.
pub open spec fn trimmed_end(text: Seq<char>) -> Seq<char>
    decreases text.len(),
{
    if text.len() > 0 && is_white_space(text.last()) {
        trimmed_end(text.drop_last())
    } else {
        text
    }
}

/// A text without the white space at either end.
pub open spec fn trimmed(text: Seq<char>) -> Seq<char> {
    trimmed_end(trimmed_start(text))
}

/// The key that the output of a key tool holds: the output as text, without
/// the white space around it. Output of no bytes holds no key, nor does
/// output that is white space alone: a key is never empty.
pub open spec fn key_of_output(stdout: Seq<u8>) -> Result<Seq<char>, KeyGenError> {
    if stdout.len() == 0 {
        Err(KeyGenError::EmptyOutput)
    } else if !valid_utf8(stdout) {
        Err(KeyGenError::NotUtf8)
    } else if trimmed(decode_utf8(stdout)).len() == 0 {
        Err(KeyGenError::EmptyOutput)
    } else {
        Ok(trimmed(decode_utf8(stdout)))
    }
}

/// Calls `String::from_utf8`. Trusted: it accepts exactly the byte rows that
/// are valid UTF-8, and the text it gives is what they encode.
#[verifier::external_body]
fn text_from_utf8(bytes: Vec<u8>) -> (r: Option<String>)
    ensures
        r.is_some() == valid_utf8(bytes@),
        r matches Some(text) ==> text@ == decode_utf8(bytes@),
{
    String::from_utf8(bytes).ok()
}

/// Calls `str::trim`. Trusted: it takes away the characters with the property
/// `White_Space` at both ends and nothing else.
#[verifier::external_body]
fn trim_text<'a>(text: &'a str) -> (r: &'a str)
    ensures
        r@ == trimmed(text@),
{
    text.trim()
}

/// The private key in what came of a run of `wg genkey`.
pub open spec fn private_key_of(output: Result<Vec<u8>, ProcessError>) -> Result<Seq<char>, KeyGenError> {
    match output {
        Ok(stdout) => key_of_output(stdout@),
        Err(e) => Err(KeyGenError::Process(e)),
    }
}

/// The public key in what came of a run of `wg pubkey`.
pub open spec fn public_key_of(output: Result<Vec<u8>, ProcessError>) -> Result<Seq<char>, KeyGenError> {
    match output {
        Ok(stdout) => key_of_output(stdout@),
        Err(e) => Err(KeyGenError::Process(e)),
    }
}

/// The key in the output of a key tool.
fn read_key(stdout: Vec<u8>) -> (r: Result<String, KeyGenError>)
    ensures
        match r {
            Ok(key) => key_of_output(stdout@) == Ok::<Seq<char>, KeyGenError>(key@),
            Err(e) => key_of_output(stdout@) == Err::<Seq<char>, KeyGenError>(e),
        },
{
    if stdout.len() == 0 {
        return Err(KeyGenError::EmptyOutput);
    }
    match text_from_utf8(stdout) {
        Some(text) => {
            let key = trim_text(text.as_str());
            if key.is_empty() {
                Err(KeyGenError::EmptyOutput)
            } else {
                Ok(key.to_owned())
            }
        },
        None => Err(KeyGenError::NotUtf8),
    }
}

/// The private key that a run of `wg genkey` gave: what it wrote to its
/// standard output, as trimmed text. A run that failed gives its failure, and
/// one that wrote no key gives `EmptyOutput`.
pub fn generate_private_key(output: Result<Vec<u8>, ProcessError>) -> (r: Result<String, KeyGenError>)
    ensures
        match r {
            Ok(key) => private_key_of(output) == Ok::<Seq<char>, KeyGenError>(key@),
            Err(e) => private_key_of(output) == Err::<Seq<char>, KeyGenError>(e),
        },
{
    match output {
        Ok(stdout) => read_key(stdout),
        Err(e) => Err(KeyGenError::Process(e)),
    }
}

/// What `wg pubkey` is given on its standard input for a private key: the key
/// without the white space around it.
pub fn public_key_input(private_key: &str) -> (input: String)
    ensures
        input@ == trimmed(private_key@),
{
    trim_text(private_key).to_owned()
}

/// The public key that a run of `wg pubkey` gave: what it wrote to its
/// standard output, as trimmed text. A run that failed gives its failure, and
/// one that wrote no key gives `EmptyOutput`.
pub fn generate_public_key(output: Result<Vec<u8>, ProcessError>) -> (r: Result<String, KeyGenError>)
    ensures
        match r {
            Ok(key) => public_key_of(output) == Ok::<Seq<char>, KeyGenError>(key@),
            Err(e) => public_key_of(output) == Err::<Seq<char>, KeyGenError>(e),
        },
{
    match output {
        Ok(stdout) => read_key(stdout),
        Err(e) => Err(KeyGenError::Process(e)),
    }
}

/// A key that a key tool gave is never empty.
pub proof fn lemma_keys_are_not_empty(output: Result<Vec<u8>, ProcessError>)
    ensures
        private_key_of(output) matches Ok(key) ==> key.len() > 0,
        public_key_of(output) matches Ok(key) ==> key.len() > 0,
        output matches Ok(stdout) && stdout@.len() == 0 ==> private_key_of(output) == Err::<
            Seq<char>,
            KeyGenError,
        >(KeyGenError::EmptyOutput) && public_key_of(output) == Err::<Seq<char>, KeyGenError>(
            KeyGenError::EmptyOutput,
        ),
{
}

/// Whether an entry of the tunnels' directory is a configuration: a regular
/// file whose extension is `conf`.
pub fn is_configuration_file(is_file: bool, extension: Option<&String>) -> (r: bool)
    ensures
        r == (is_file && (extension matches Some(ext) && ext@ == "conf"@)),
{
    match extension {
        Some(ext) => {
            let conf = "conf".to_string();
            is_file && *ext == conf
        },
        None => false,
    }
}

/// Gives a configuration that names no interface the name of its file, where
/// the file has one. Nothing else changes.
pub fn adopt_file_name(config: &mut WireguardConfig, file_stem: Option<String>)
    ensures
        final(config).peers == old(config).peers,
        final(config).interface.address == old(config).interface.address,
        final(config).interface.listen_port == old(config).interface.listen_port,
        final(config).interface.public_key == old(config).interface.public_key,
        final(config).interface.private_key == old(config).interface.private_key,
        final(config).interface.name == (if old(config).interface.name.is_none() {
            file_stem
        } else {
            old(config).interface.name
        }),
{
    if config.interface.name.is_none() {
        config.interface.name = file_stem;
    }
}

} // verus!
