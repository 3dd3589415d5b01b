use serial_session::config::{DataBits, FlowControl, Parity, StopBits};
use serial_session::error_channel::{serial_err_fill, serial_err_len, ErrorChannel};
use serial_session::protocol::{
    serial_drain, serial_open, serial_open_finish, serial_read, serial_read_finish,
    serial_set_lines, serial_set_lines_step, serial_write, serial_write_finish, DrainStep,
    LineCommand, LineStep, ReadOutcome,
};
use serial_session::session_table::{serial_close, serial_last_handle, SessionTable};

/// A device that hands back what was written to it.
struct Loopback {
    pending: Vec<u8>,
    timeout_ms: u64,
}

fn loopback_write(device: &mut Loopback, data: &[u8]) -> Result<usize, String> {
    device.pending.extend_from_slice(data);
    Ok(data.len())
}

fn loopback_read(device: &mut Loopback, out: &mut [u8]) -> ReadOutcome {
    if device.pending.is_empty() {
        return ReadOutcome::TimedOut;
    }
    let count = device.pending.len().min(out.len());
    out[..count].copy_from_slice(&device.pending[..count]);
    device.pending.drain(..count);
    ReadOutcome::Read(count)
}

#[test]
fn loopback_echoes_five_bytes() {
    let mut table = SessionTable::new();
    let mut errors = ErrorChannel::new();
    let request = serial_open(&mut errors, b"/dev/loop", 9600, 8, 0, 1, 0, 0, 0, 0, -1).unwrap();
    assert_eq!(request.config.baud_rate, 9600);
    assert_eq!(request.config.data_bits, DataBits::Eight);
    assert_eq!(request.config.parity, Parity::Off);
    assert_eq!(request.config.stop_bits, StopBits::One);
    assert_eq!(request.config.flow_control, FlowControl::Off);
    let mut device = Loopback { pending: Vec::new(), timeout_ms: request.config.timeout_ms };
    assert_eq!(serial_open_finish(&mut table, &mut errors, request.config, Ok(())), 0);
    let handle = serial_last_handle(&table);

    let message = [b'h', b'e', b'l', b'l', b'o'];
    let data = serial_write(&mut table, &mut errors, handle, Some(&message)).unwrap();
    let written = loopback_write(&mut device, data);
    assert_eq!(serial_write_finish(&mut errors, written), 5);

    let mut buffer = [0u8; 5];
    let new_timeout = serial_read(&mut table, &mut errors, handle, true, 1000).unwrap();
    if let Some(ms) = new_timeout {
        device.timeout_ms = ms;
    }
    assert_eq!(device.timeout_ms, 1000);
    let outcome = loopback_read(&mut device, &mut buffer);
    assert_eq!(serial_read_finish(&mut errors, outcome), 5);
    assert_eq!(buffer, message);
    assert_eq!(serial_err_len(&errors), 0);
    assert_eq!(serial_close(&mut table, &mut errors, handle), 0);
}

#[test]
fn read_without_data_returns_zero_not_failure() {
    let mut table = SessionTable::new();
    let mut errors = ErrorChannel::new();
    let request = serial_open(&mut errors, b"/dev/loop", 9600, 8, 0, 1, 0, 0, 0, 0, -1).unwrap();
    let mut device = Loopback { pending: Vec::new(), timeout_ms: request.config.timeout_ms };
    assert_eq!(serial_open_finish(&mut table, &mut errors, request.config, Ok(())), 0);
    let handle = serial_last_handle(&table);
    let mut buffer = [0u8; 16];
    let new_timeout = serial_read(&mut table, &mut errors, handle, true, 50).unwrap();
    assert_eq!(new_timeout, Some(50));
    device.timeout_ms = new_timeout.unwrap();
    let outcome = loopback_read(&mut device, &mut buffer);
    assert_eq!(serial_read_finish(&mut errors, outcome), 0);
    assert_eq!(serial_err_len(&errors), 0);
}

#[test]
fn drain_of_idle_session_never_sleeps() {
    let mut errors = ErrorChannel::new();
    let mut sleeps = 0;
    let mut elapsed: u128 = 0;
    let code = loop {
        match serial_drain(&mut errors, Ok(0), elapsed) {
            DrainStep::Done(code) => break code,
            DrainStep::Sleep(ms) => {
                sleeps += 1;
                elapsed += u128::from(ms) * 1_000_000;
            }
        }
    };
    assert_eq!(code, 0);
    assert_eq!(sleeps, 0);
}

#[test]
fn drain_waits_until_output_has_left() {
    let mut errors = ErrorChannel::new();
    let mut pending: u32 = 3;
    let mut sleeps = 0;
    let mut elapsed: u128 = 0;
    let code = loop {
        match serial_drain(&mut errors, Ok(pending), elapsed) {
            DrainStep::Done(code) => break code,
            DrainStep::Sleep(ms) => {
                sleeps += 1;
                elapsed += u128::from(ms) * 1_000_000;
                pending -= 1;
            }
        }
    };
    assert_eq!(code, 0);
    assert_eq!(sleeps, 3);
    assert_eq!(elapsed, 15_000_000);
}

#[test]
fn drain_of_stuck_device_gives_up_after_ten_seconds() {
    let mut errors = ErrorChannel::new();
    let mut sleeps: u32 = 0;
    let mut elapsed: u128 = 0;
    let code = loop {
        match serial_drain(&mut errors, Ok(7), elapsed) {
            DrainStep::Done(code) => break code,
            DrainStep::Sleep(ms) => {
                sleeps += 1;
                elapsed += u128::from(ms) * 1_000_000;
            }
        }
    };
    assert_eq!(code, -1);
    assert_eq!(sleeps, 2001);
    assert_eq!(errors.last_message(), Some("drain timeout".to_string()));
}

#[test]
fn set_lines_runs_changes_until_one_fails() {
    let mut table = SessionTable::new();
    let mut errors = ErrorChannel::new();
    let request = serial_open(&mut errors, b"/dev/loop", 9600, 8, 0, 1, 0, 0, 0, 0, 0).unwrap();
    serial_open_finish(&mut table, &mut errors, request.config, Ok(()));
    let handle = serial_last_handle(&table);
    let commands = serial_set_lines(&mut table, &mut errors, handle, 1, 1, 1).unwrap();
    let mut made: Vec<LineCommand> = Vec::new();
    let mut failure: Option<String> = None;
    let code = loop {
        match serial_set_lines_step(&mut errors, &commands, made.len(), failure.take()) {
            LineStep::Done(code) => break code,
            LineStep::Apply(command) => {
                made.push(command);
                if command == LineCommand::DataTerminalReady(true) {
                    failure = Some("line stuck".to_string());
                }
            }
        }
    };
    assert_eq!(code, -1);
    assert_eq!(made, vec![LineCommand::RequestToSend(true), LineCommand::DataTerminalReady(true)]);
    assert_eq!(errors.last_message(), Some("line stuck".to_string()));
}

#[test]
fn caller_reads_the_reason_of_a_failure() {
    let mut table = SessionTable::new();
    let mut errors = ErrorChannel::new();
    assert_eq!(serial_close(&mut table, &mut errors, 12), -1);
    let needed = serial_err_len(&errors);
    assert_eq!(needed, 15);
    let mut buffer = vec![0xffu8; needed];
    serial_err_fill(&errors, &mut buffer);
    assert_eq!(buffer, b"invalid handle\0".to_vec());
}
