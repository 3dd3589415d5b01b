//! The operations on a session: open, write, read, line control, flush, drain.
//!
//! The device itself is out of reach here.  Each operation is therefore cut
//! where the device is called: its first function checks the arguments and the
//! handle and says what the device is to be asked; its second function takes
//! what the device answered and gives the code that the caller gets back.  A
//! failure of either half leaves its reason on the error channel.

use crate::config::{config_of, port_config, PortConfig};
use crate::error_channel::{set_err, ErrorChannel, FAILURE};
use crate::session_table::{insert_handle, with_state_mut, PortState, SessionTable};
use vstd::prelude::*;
use vstd::utf8::{decode_utf8, encode_utf8, valid_utf8};

verus! {

broadcast use vstd::utf8::encode_utf8_decode_utf8;

/// The text left on the error channel where a data buffer is missing.
pub open spec fn null_buffer_text() -> Seq<char> {
    "null buffer"@
}

/// The text left on the error channel where the place for the line mask is
/// missing.
pub open spec fn null_mask_text() -> Seq<char> {
    "null mask"@
}

/// The text left on the error channel where a drain ran out of time.
pub open spec fn drain_timeout_text() -> Seq<char> {
    "drain timeout"@
}

/// The text with which `core::str::from_utf8` turns down bytes that are no
/// UTF-8.
pub uninterp spec fn utf8_error_text(bytes: Seq<u8>) -> Seq<char>;

/// `core::str::from_utf8`: the text that the bytes encode where they are valid
/// UTF-8, and else the error, as the text that it displays.
#[verifier::external_body]
fn text_from_utf8(bytes: &[u8]) -> (decoded: Result<String, String>)
    ensures
        decoded is Ok == valid_utf8(bytes@),
        decoded is Ok ==> encode_utf8(decoded->Ok_0@) == bytes@,
        decoded is Err ==> decoded->Err_0@ == utf8_error_text(bytes@),
{
    match core::str::from_utf8(bytes) {
        Ok(text) => Ok(text.to_owned()),
        Err(error) => Err(error.to_string()),
    }
}

/// What is to be opened: the device's path and its line settings.
#[derive(Debug, PartialEq, Eq)]
pub struct OpenRequest {
    pub path: String,
    pub config: PortConfig,
}

/// First half of an open: decodes the path and maps the option codes.  A path
/// that is no UTF-8 fails the open; no option code does.  The reserved flag
/// selects nothing.
pub fn serial_open(
    errors: &mut ErrorChannel,
    path: &[u8],
    baud: u32,
    data_bits: u8,
    parity: u8,
    stop_bits: u8,
    rtscts: u8,
    xon: u8,
    xoff: u8,
    reserved: u8,
    read_timeout_ms: i32,
) -> (request: Result<OpenRequest, i32>)
    ensures
        request is Ok == valid_utf8(path@),
        match request {
            Ok(opening) => {
                &&& opening.path@ == decode_utf8(path@)
                &&& opening.config == config_of(
                    baud,
                    data_bits,
                    parity,
                    stop_bits,
                    rtscts,
                    xon,
                    xoff,
                    read_timeout_ms,
                )
                &&& final(errors).message() == old(errors).message()
            },
            Err(code) => {
                &&& code == FAILURE
                &&& final(errors).message() == Some(utf8_error_text(path@))
            },
        },
{
    match text_from_utf8(path) {
        Ok(text) => {
            let config = port_config(
                baud,
                data_bits,
                parity,
                stop_bits,
                rtscts,
                xon,
                xoff,
                read_timeout_ms,
            );
            Ok(OpenRequest { path: text, config })
        },
        Err(reason) => Err(set_err(errors, reason)),
    }
}

/// Second half of an open.  Where the device was opened, its session enters
/// the table under a fresh handle, which becomes the last handle, and the code
/// is zero.  Where it was not, the device's reason is reported.
pub fn serial_open_finish(
    table: &mut SessionTable,
    errors: &mut ErrorChannel,
    config: PortConfig,
    opened: Result<(), String>,
) -> (code: i32)
    ensures
        match opened {
            Ok(_) => {
                &&& code == 0
                &&& !old(table).is_open(final(table).last_handle())
                &&& final(table).sessions() == old(table).sessions().insert(
                    final(table).last_handle(),
                    PortState { read_timeout_ms: config.timeout_ms },
                )
                &&& final(errors).message() == old(errors).message()
            },
            Err(reason) => {
                &&& code == FAILURE
                &&& final(table).sessions() == old(table).sessions()
                &&& final(table).last_handle() == old(table).last_handle()
                &&& final(errors).message() == Some(reason@)
            },
        },
{
    match opened {
        Ok(_) => {
            let handle = insert_handle(table, PortState { read_timeout_ms: config.timeout_ms });
            table.set_last_handle(handle);
            0
        },
        Err(reason) => set_err(errors, reason),
    }
}

/// First half of a write: the bytes that the device is to be given.  A missing
/// buffer is reported before the handle is looked at.
pub fn serial_write<'a>(
    table: &mut SessionTable,
    errors: &mut ErrorChannel,
    handle: u64,
    buffer: Option<&'a [u8]>,
) -> (data: Result<&'a [u8], isize>)
    ensures
        final(table).sessions() == old(table).sessions(),
        final(table).last_handle() == old(table).last_handle(),
        data is Ok == (buffer is Some && old(table).is_open(handle)),
        match data {
            Ok(bytes) => {
                &&& Some(bytes) == buffer
                &&& final(errors).message() == old(errors).message()
            },
            Err(code) => {
                &&& code == FAILURE
                &&& final(errors).message() == Some(
                    if buffer is None {
                        null_buffer_text()
                    } else {
                        crate::session_table::invalid_handle_text()
                    },
                )
            },
        },
{
    match buffer {
        None => Err(set_err(errors, "null buffer".to_owned()) as isize),
        Some(bytes) => {
            match with_state_mut(table, errors, handle) {
                Ok(_) => {
                            Ok(bytes)
                },
                Err(code) => Err(code as isize),
            }
        },
    }
}

/// Second half of a write: the number of bytes that the device took, or the
/// failure code after the device's reason was reported.
pub fn serial_write_finish(errors: &mut ErrorChannel, written: Result<usize, String>) -> (code:
    isize)
    ensures
        match written {
            Ok(count) => {
                &&& code == count as isize
                &&& final(errors).message() == old(errors).message()
            },
            Err(reason) => {
                &&& code == FAILURE
                &&& final(errors).message() == Some(reason@)
            },
        },
{
    match written {
        Ok(count) => count as isize,
        Err(reason) => set_err(errors, reason) as isize,
    }
}

/// What one read on the device came to.
#[derive(Debug, PartialEq, Eq)]
pub enum ReadOutcome {
    /// The device delivered this many bytes.
    Read(usize),
    /// Nothing arrived within the timeout.
    TimedOut,
    /// The device failed, for this reason.
    Failed(String),
}

/// The session's read timeout after a read that asked for `timeout_ms`: a
/// timeout that is not negative replaces the one in force, a negative one
/// leaves it.
pub open spec fn timeout_after_read(before: PortState, timeout_ms: i32) -> PortState {
    if timeout_ms >= 0 {
        PortState { read_timeout_ms: timeout_ms as u64 }
    } else {
        before
    }
}

/// First half of a read.  A missing buffer is reported before the handle is
/// looked at.  Where the caller gave a timeout that is not negative, it
/// becomes the session's read timeout, for this read and those after it, and
/// is returned for the device to be set to; a negative one changes nothing.
pub fn serial_read(
    table: &mut SessionTable,
    errors: &mut ErrorChannel,
    handle: u64,
    has_buffer: bool,
    timeout_ms: i32,
) -> (new_timeout: Result<Option<u64>, isize>)
    ensures
        final(table).last_handle() == old(table).last_handle(),
        new_timeout is Ok == (has_buffer && old(table).is_open(handle)),
        match new_timeout {
            Ok(timeout) => {
                &&& timeout == if timeout_ms >= 0 {
                    Some(timeout_ms as u64)
                } else {
                    None
                }
                &&& final(table).sessions() == old(table).sessions().insert(
                    handle,
                    timeout_after_read(old(table).sessions()[handle], timeout_ms),
                )
                &&& final(errors).message() == old(errors).message()
            },
            Err(code) => {
                &&& code == FAILURE
                &&& final(table).sessions() == old(table).sessions()
                &&& final(errors).message() == Some(
                    if !has_buffer {
                        null_buffer_text()
                    } else {
                        crate::session_table::invalid_handle_text()
                    },
                )
            },
        },
{
    if !has_buffer {
        return Err(set_err(errors, "null buffer".to_owned()) as isize);
    }
    match with_state_mut(table, errors, handle) {
        Ok(state) => {
            if timeout_ms >= 0 {
                state.read_timeout_ms = timeout_ms as u64;
                Ok(Some(timeout_ms as u64))
            } else {
                Ok(None)
            }
        },
        Err(code) => Err(code as isize),
    }
}

/// Second half of a read: the number of bytes delivered; zero, and no failure,
/// where nothing arrived in time; the failure code after the device's reason
/// was reported.
pub fn serial_read_finish(errors: &mut ErrorChannel, outcome: ReadOutcome) -> (code: isize)
    ensures
        match outcome {
            ReadOutcome::Read(count) => {
                &&& code == count as isize
                &&& final(errors).message() == old(errors).message()
            },
            ReadOutcome::TimedOut => {
                &&& code == 0
                &&& final(errors).message() == old(errors).message()
            },
            ReadOutcome::Failed(reason) => {
                &&& code == FAILURE
                &&& final(errors).message() == Some(reason@)
            },
        },
{
    match outcome {
        ReadOutcome::Read(count) => count as isize,
        ReadOutcome::TimedOut => 0,
        ReadOutcome::Failed(reason) => set_err(errors, reason) as isize,
    }
}

/// One change to the control lines of a device.
#[derive(Clone, Copy, Debug, PartialEq, Eq, Structural)]
pub enum LineCommand {
    /// Drive request-to-send to this level.
    RequestToSend(bool),
    /// Drive data-terminal-ready to this level.
    DataTerminalReady(bool),
    /// Assert the break condition.
    SetBreak,
    /// Clear the break condition.
    ClearBreak,
}

/// The changes that the three instructions ask for, in the order in which they
/// are made: request-to-send, data-terminal-ready, break.  A negative
/// instruction leaves its line alone, zero forces it off, any other forces it
/// on.
pub open spec fn line_commands(rts: i32, dtr: i32, brk: i32) -> Seq<LineCommand> {
    let for_rts = if rts >= 0 {
        seq![LineCommand::RequestToSend(rts != 0)]
    } else {
        seq![]
    };
    let for_dtr = if dtr >= 0 {
        seq![LineCommand::DataTerminalReady(dtr != 0)]
    } else {
        seq![]
    };
    let for_brk = if brk >= 0 {
        seq![
            if brk != 0 {
                LineCommand::SetBreak
            } else {
                LineCommand::ClearBreak
            },
        ]
    } else {
        seq![]
    };
    for_rts + for_dtr + for_brk
}

/// What is to be done next in a change of control lines.
#[derive(Clone, Copy, Debug, PartialEq, Eq, Structural)]
pub enum LineStep {
    /// Make this change and come back with what the device said.
    Apply(LineCommand),
    /// Nothing is left to do; this is the code for the caller.
    Done(i32),
}

/// The step that follows when `applied` of the changes have been made and the
/// last of them, if any, failed or did not.
pub open spec fn next_line_step(commands: Seq<LineCommand>, applied: int, failed: bool) -> LineStep {
    if failed {
        LineStep::Done(FAILURE)
    } else if 0 <= applied < commands.len() {
        LineStep::Apply(commands[applied])
    } else {
        LineStep::Done(0)
    }
}

/// First half of a change of control lines: the changes to make, in order.
pub fn serial_set_lines(
    table: &mut SessionTable,
    errors: &mut ErrorChannel,
    handle: u64,
    rts: i32,
    dtr: i32,
    brk: i32,
) -> (commands: Result<Vec<LineCommand>, i32>)
    ensures
        final(table).sessions() == old(table).sessions(),
        final(table).last_handle() == old(table).last_handle(),
        commands is Ok == old(table).is_open(handle),
        match commands {
            Ok(list) => {
                &&& list@ == line_commands(rts, dtr, brk)
                &&& final(errors).message() == old(errors).message()
            },
            Err(code) => {
                &&& code == FAILURE
                &&& final(errors).message() == Some(crate::session_table::invalid_handle_text())
            },
        },
{
    match with_state_mut(table, errors, handle) {
        Ok(_) => {
        },
        Err(code) => {
            return Err(code);
        },
    }
    let mut list: Vec<LineCommand> = Vec::new();
    if rts >= 0 {
        list.push(LineCommand::RequestToSend(rts != 0));
    }
    if dtr >= 0 {
        list.push(LineCommand::DataTerminalReady(dtr != 0));
    }
    if brk >= 0 {
        if brk != 0 {
            list.push(LineCommand::SetBreak);
        } else {
            list.push(LineCommand::ClearBreak);
        }
    }
    assert(list@ =~= line_commands(rts, dtr, brk));
    Ok(list)
}

/// The step that follows when `applied` of the changes have been made and the
/// last of them, if any, failed with `failure` or did not fail.  The first
/// change that fails ends the operation: its reason is reported, and the
/// changes behind it are not made.  Those before it stay made.
pub fn serial_set_lines_step(
    errors: &mut ErrorChannel,
    commands: &Vec<LineCommand>,
    applied: usize,
    failure: Option<String>,
) -> (step: LineStep)
    ensures
        step == next_line_step(commands@, applied as int, failure is Some),
        final(errors).message() == match failure {
            Some(reason) => Some(reason@),
            None => old(errors).message(),
        },
{
    match failure {
        Some(reason) => LineStep::Done(set_err(errors, reason)),
        None => {
            if applied < commands.len() {
                LineStep::Apply(commands[applied])
            } else {
                LineStep::Done(0)
            }
        },
    }
}

/// The value that a signal adds to the line mask: `weight` where the signal
/// was read and is asserted, nothing where it is not asserted or could not be
/// read.
pub open spec fn signal_bit(signal: Option<bool>, weight: nat) -> nat {
    if signal == Some(true) {
        weight
    } else {
        0
    }
}

/// The line mask: bit 0 for clear-to-send, bit 1 for data-set-ready, bit 2 for
/// carrier-detect, bit 3 for the ring indicator.
pub open spec fn line_mask(
    cts: Option<bool>,
    dsr: Option<bool>,
    dcd: Option<bool>,
    ri: Option<bool>,
) -> nat {
    signal_bit(cts, 1) + signal_bit(dsr, 2) + signal_bit(dcd, 4) + signal_bit(ri, 8)
}

/// First half of a query of the input lines.  A missing place for the mask is
/// reported before the handle is looked at.
pub fn serial_get_lines(
    table: &mut SessionTable,
    errors: &mut ErrorChannel,
    handle: u64,
    has_mask: bool,
) -> (ready: Result<(), i32>)
    ensures
        final(table).sessions() == old(table).sessions(),
        final(table).last_handle() == old(table).last_handle(),
        ready is Ok == (has_mask && old(table).is_open(handle)),
        match ready {
            Ok(_) => final(errors).message() == old(errors).message(),
            Err(code) => {
                &&& code == FAILURE
                &&& final(errors).message() == Some(
                    if !has_mask {
                        null_mask_text()
                    } else {
                        crate::session_table::invalid_handle_text()
                    },
                )
            },
        },
{
    if !has_mask {
        return Err(set_err(errors, "null mask".to_owned()));
    }
    match with_state_mut(table, errors, handle) {
        Ok(_) => {
            Ok(())
        },
        Err(code) => Err(code),
    }
}

/// Second half of a query of the input lines.  Each signal comes as what was
/// read of it, or as nothing where it could not be read, which counts as not
/// asserted.  The mask goes to the caller's place and the code is zero,
/// whatever the signals were.
pub fn serial_get_lines_finish(
    out_mask: &mut u32,
    cts: Option<bool>,
    dsr: Option<bool>,
    dcd: Option<bool>,
    ri: Option<bool>,
) -> (code: i32)
    ensures
        code == 0,
        *final(out_mask) == line_mask(cts, dsr, dcd, ri),
{
    let mut mask: u32 = 0;
    if let Some(true) = cts {
        mask = mask | (1u32 << 0);
        assert(0u32 | (1u32 << 0) == 1) by (bit_vector);
    }
    if let Some(true) = dsr {
        let ghost before = mask;
        mask = mask | (1u32 << 1);
        assert(before | (1u32 << 1) == before + 2) by (bit_vector)
            requires
                before < 2,
        ;
    }
    if let Some(true) = dcd {
        let ghost before = mask;
        mask = mask | (1u32 << 2);
        assert(before | (1u32 << 2) == before + 4) by (bit_vector)
            requires
                before < 4,
        ;
    }
    if let Some(true) = ri {
        let ghost before = mask;
        mask = mask | (1u32 << 3);
        assert(before | (1u32 << 3) == before + 8) by (bit_vector)
            requires
                before < 8,
        ;
    }
    *out_mask = mask;
    0
}

/// The buffers of a device that a flush clears.
#[derive(Clone, Copy, Debug, PartialEq, Eq, Structural)]
pub enum ClearTarget {
    Input,
    Output,
    All,
}

/// The buffers that the two flags of a flush select, if any.
pub open spec fn clear_target(flush_in: i32, flush_out: i32) -> Option<ClearTarget> {
    if flush_in != 0 && flush_out != 0 {
        Some(ClearTarget::All)
    } else if flush_in != 0 {
        Some(ClearTarget::Input)
    } else if flush_out != 0 {
        Some(ClearTarget::Output)
    } else {
        None
    }
}

/// First half of a flush: the buffers that the device is to clear.  With
/// neither flag set there is nothing to clear and the flush has succeeded.
pub fn serial_flush(
    table: &mut SessionTable,
    errors: &mut ErrorChannel,
    handle: u64,
    flush_in: i32,
    flush_out: i32,
) -> (target: Result<Option<ClearTarget>, i32>)
    ensures
        final(table).sessions() == old(table).sessions(),
        final(table).last_handle() == old(table).last_handle(),
        target is Ok == old(table).is_open(handle),
        match target {
            Ok(buffers) => {
                &&& buffers == clear_target(flush_in, flush_out)
                &&& final(errors).message() == old(errors).message()
            },
            Err(code) => {
                &&& code == FAILURE
                &&& final(errors).message() == Some(crate::session_table::invalid_handle_text())
            },
        },
{
    match with_state_mut(table, errors, handle) {
        Ok(_) => {
        },
        Err(code) => {
            return Err(code);
        },
    }
    if flush_in != 0 && flush_out != 0 {
        Ok(Some(ClearTarget::All))
    } else if flush_in != 0 {
        Ok(Some(ClearTarget::Input))
    } else if flush_out != 0 {
        Ok(Some(ClearTarget::Output))
    } else {
        Ok(None)
    }
}

/// Second half of a flush: zero where the device cleared its buffers, or had
/// none to clear; the failure code after the device's reason was reported.
pub fn serial_flush_finish(errors: &mut ErrorChannel, cleared: Result<(), String>) -> (code: i32)
    ensures
        match cleared {
            Ok(_) => {
                &&& code == 0
                &&& final(errors).message() == old(errors).message()
            },
            Err(reason) => {
                &&& code == FAILURE
                &&& final(errors).message() == Some(reason@)
            },
        },
{
    match cleared {
        Ok(_) => 0,
        Err(reason) => set_err(errors, reason),
    }
}

/// The longest that a drain waits for the output to leave, in nanoseconds.
pub const DRAIN_BUDGET_NANOS: u128 = 10_000_000_000;

/// The pause between two looks at the pending output of a drain, in
/// milliseconds.
pub const DRAIN_SLEEP_MS: u64 = 5;

/// What is to be done next in a drain.
#[derive(Clone, Copy, Debug, PartialEq, Eq, Structural)]
pub enum DrainStep {
    /// The drain is over; this is the code for the caller.
    Done(i32),
    /// Output is still pending: pause for this many milliseconds, then look
    /// again.
    Sleep(u64),
}

/// The step of a drain that follows on what the device said of the bytes that
/// still wait to be sent, at this time since the drain began.
pub open spec fn next_drain_step(pending: Result<u32, String>, elapsed_nanos: u128) -> DrainStep {
    match pending {
        Ok(left) => {
            if left == 0 {
                DrainStep::Done(0)
            } else if elapsed_nanos > DRAIN_BUDGET_NANOS {
                DrainStep::Done(FAILURE)
            } else {
                DrainStep::Sleep(DRAIN_SLEEP_MS)
            }
        },
        Err(_) => DrainStep::Done(FAILURE),
    }
}

/// One step of a drain.  `pending` is what the device said of the bytes that
/// still wait to be sent, `elapsed_nanos` the time since the drain began.  The
/// drain succeeds as soon as nothing is pending, fails when the device fails,
/// and fails with a timeout when output is still pending after the budget.
pub fn serial_drain(errors: &mut ErrorChannel, pending: Result<u32, String>, elapsed_nanos: u128) -> (step:
    DrainStep)
    ensures
        step == next_drain_step(pending, elapsed_nanos),
        final(errors).message() == match pending {
            Ok(left) => if left != 0 && elapsed_nanos > DRAIN_BUDGET_NANOS {
                Some(drain_timeout_text())
            } else {
                old(errors).message()
            },
            Err(reason) => Some(reason@),
        },
{
    match pending {
        Ok(left) => {
            if left == 0 {
                DrainStep::Done(0)
            } else if elapsed_nanos > DRAIN_BUDGET_NANOS {
                DrainStep::Done(set_err(errors, "drain timeout".to_owned()))
            } else {
                DrainStep::Sleep(DRAIN_SLEEP_MS)
            }
        },
        Err(reason) => DrainStep::Done(set_err(errors, reason)),
    }
}

/// A session that was opened with a request for a wait without limit reads
/// with the fallback timeout, and keeps doing so until a read brings a timeout
/// of its own.  A read that brings one waits that long, and no longer than the
/// fallback where it asks for no more.
pub proof fn lemma_unlimited_open_reads_within_fallback(
    baud: u32,
    data_bits: u8,
    parity: u8,
    stop_bits: u8,
    rtscts: u8,
    xon: u8,
    xoff: u8,
    open_timeout_ms: i32,
    read_timeout_ms: i32,
)
    requires
        open_timeout_ms < 0,
        read_timeout_ms <= crate::config::FALLBACK_TIMEOUT_MS,
    ensures
        ({
            let config = config_of(
                baud,
                data_bits,
                parity,
                stop_bits,
                rtscts,
                xon,
                xoff,
                open_timeout_ms,
            );
            let opened = PortState { read_timeout_ms: config.timeout_ms };
            &&& opened.read_timeout_ms == crate::config::FALLBACK_TIMEOUT_MS
            &&& timeout_after_read(opened, read_timeout_ms).read_timeout_ms
                <= crate::config::FALLBACK_TIMEOUT_MS
            &&& read_timeout_ms < 0 ==> timeout_after_read(opened, read_timeout_ms) == opened
        }),
{
}

/// Three instructions that leave their lines alone ask nothing of the device:
/// there is no change to make, and the first step ends the operation with
/// success.
pub proof fn lemma_unchanged_lines_ask_nothing(rts: i32, dtr: i32, brk: i32)
    requires
        rts < 0,
        dtr < 0,
        brk < 0,
    ensures
        line_commands(rts, dtr, brk) == Seq::<LineCommand>::empty(),
        next_line_step(line_commands(rts, dtr, brk), 0, false) == LineStep::Done(0),
{
}

/// How a change of control lines runs when the device fails the changes that
/// `fails` marks: the number of changes made, and the code for the caller.
/// The run starts where `applied` changes have been made, the last of them
/// with a failure or without, and follows `next_line_step` to the end.
pub open spec fn line_run(
    commands: Seq<LineCommand>,
    fails: Seq<bool>,
    applied: int,
    failed: bool,
) -> (int, i32)
    decreases commands.len() - applied,
{
    match next_line_step(commands, applied, failed) {
        LineStep::Done(code) => (applied, code),
        LineStep::Apply(_) => line_run(commands, fails, applied + 1, fails[applied]),
    }
}

/// A change of control lines makes its changes in order up to the first that
/// the device fails, and that one included; it succeeds where none fails and
/// then has made them all.  A failure leaves the changes before it made and
/// those behind it unmade.
pub proof fn lemma_line_run_ends_at_first_failure(
    commands: Seq<LineCommand>,
    fails: Seq<bool>,
    applied: int,
)
    requires
        fails.len() == commands.len(),
        0 <= applied <= commands.len(),
        forall|i: int| 0 <= i < applied ==> !fails[i],
    ensures
        ({
            let (made, code) = line_run(commands, fails, applied, false);
            &&& applied <= made <= commands.len()
            &&& forall|i: int| 0 <= i < made - 1 ==> !fails[i]
            &&& code == 0 <==> (forall|i: int| 0 <= i < commands.len() ==> !fails[i])
            &&& code == 0 ==> made == commands.len()
            &&& code != 0 ==> code == FAILURE && made >= 1 && fails[made - 1]
        }),
    decreases commands.len() - applied,
{
    if applied < commands.len() {
        if fails[applied] {
            assert(line_run(commands, fails, applied + 1, true) == (applied + 1, FAILURE));
        } else {
            lemma_line_run_ends_at_first_failure(commands, fails, applied + 1);
        }
    }
}

/// The line mask has no bit above the fourth, and a signal that could not be
/// read leaves the mask as a signal that is not asserted does.
pub proof fn lemma_unread_signal_counts_as_clear(
    cts: Option<bool>,
    dsr: Option<bool>,
    dcd: Option<bool>,
    ri: Option<bool>,
)
    ensures
        line_mask(cts, dsr, dcd, ri) <= 15,
        line_mask(None, dsr, dcd, ri) == line_mask(Some(false), dsr, dcd, ri),
        line_mask(cts, None, dcd, ri) == line_mask(cts, Some(false), dcd, ri),
        line_mask(cts, dsr, None, ri) == line_mask(cts, dsr, Some(false), ri),
        line_mask(cts, dsr, dcd, None) == line_mask(cts, dsr, dcd, Some(false)),
{
}

/// A drain that finds nothing pending ends at once with success, whatever the
/// time, and never asks for a pause.
pub proof fn lemma_nothing_pending_ends_drain(elapsed_nanos: u128)
    ensures
        next_drain_step(Ok(0), elapsed_nanos) == DrainStep::Done(0),
{
}

/// A drain never asks for a pause once the budget is spent: every step after
/// it ends the drain.  On a clock that moves at least as long as each pause
/// lasts, that is the case after two thousand pauses and one.
pub proof fn lemma_drain_ends_after_budget(
    pending: Result<u32, String>,
    elapsed_nanos: u128,
    pauses: nat,
)
    ensures
        elapsed_nanos > DRAIN_BUDGET_NANOS ==> next_drain_step(pending, elapsed_nanos) is Done,
        pauses > 2000 && elapsed_nanos >= pauses * DRAIN_SLEEP_MS * 1_000_000 ==> next_drain_step(
            pending,
            elapsed_nanos,
        ) is Done,
{
    if pauses > 2000 && elapsed_nanos >= pauses * DRAIN_SLEEP_MS * 1_000_000 {
        assert(pauses * DRAIN_SLEEP_MS * 1_000_000 > DRAIN_BUDGET_NANOS) by (nonlinear_arith)
            requires
                pauses > 2000,
                DRAIN_SLEEP_MS == 5,
                DRAIN_BUDGET_NANOS == 10_000_000_000,
        ;
    }
}

} // verus!
