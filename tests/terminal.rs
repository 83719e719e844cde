use serial_term::config::{
    max_attempts, Config, Mode, DEFAULT_BAUD, FAILURE_EXIT_CODE, SETTLE_MILLISECONDS,
    SUCCESS_EXIT_CODE, WAIT_INTERVAL_MILLISECONDS, WAIT_MILLISECONDS,
};
use serial_term::messages::{open_failure_message, timeout_detail};
use serial_term::relay::{inbound_step, outbound_step, InputEvent, Outbound, ReadOutcome, Relay};
use serial_term::retry::{
    classify, ErrorClass, OpenErrorKind, RetryAction, RetryCoordinator, RetryEvent, RetryState,
};
use serial_term::transfer::{FileTransfer, TransferStep, WriteOutcome};

/// Drives a coordinator with a device that is absent for `absent` attempts
/// and then opens; returns the last action and the time paused.
fn drive(wait: bool, absent: u64) -> (RetryAction, u64, u64) {
    let mut c = RetryCoordinator::new(wait);
    let mut action = c.action();
    let mut failures: u64 = 0;
    let mut paused: u64 = 0;
    loop {
        match action {
            RetryAction::Open => {
                let event = if failures < absent {
                    failures += 1;
                    RetryEvent::OpenFailed(OpenErrorKind::NoDevice)
                } else {
                    RetryEvent::Opened
                };
                action = c.step(event);
            }
            RetryAction::Sleep { millis } => {
                paused += millis;
                action = c.step(RetryEvent::Slept);
            }
            _ => return (action, paused, failures),
        }
    }
}

#[test]
fn classify_absent_and_fatal() {
    assert_eq!(classify(OpenErrorKind::NoDevice), ErrorClass::DeviceAbsent);
    assert_eq!(classify(OpenErrorKind::IoNotFound), ErrorClass::DeviceAbsent);
    assert_eq!(classify(OpenErrorKind::Io), ErrorClass::Fatal);
    assert_eq!(classify(OpenErrorKind::InvalidInput), ErrorClass::Fatal);
    assert_eq!(classify(OpenErrorKind::Unknown), ErrorClass::Fatal);
}

#[test]
fn no_wait_fails_after_one_attempt() {
    for kind in [OpenErrorKind::NoDevice, OpenErrorKind::IoNotFound, OpenErrorKind::Io] {
        let mut c = RetryCoordinator::new(false);
        assert_eq!(c.action(), RetryAction::Open);
        assert_eq!(c.exit_code(), None);
        let a = c.step(RetryEvent::OpenFailed(kind));
        assert_eq!(a, RetryAction::ReportOpenError);
        assert_eq!(c.state, RetryState::Failed);
        assert_eq!(c.exit_code(), Some(1));
        assert_eq!(c.step(RetryEvent::Slept), RetryAction::ReportOpenError);
    }
}

#[test]
fn absent_device_without_wait_reports_path() {
    let port = "/dev/null-equivalent-absent";
    let (action, paused, failures) = drive(false, 1);
    assert_eq!(action, RetryAction::ReportOpenError);
    assert_eq!(paused, 0);
    assert_eq!(failures, 1);
    let msg = open_failure_message(port, "No such file or directory");
    assert!(msg.contains(port));
    assert_eq!(
        msg,
        "Failed to open \"/dev/null-equivalent-absent\". Error: No such file or directory"
    );
}

#[test]
fn fatal_error_aborts_even_when_waiting() {
    let mut c = RetryCoordinator::new(true);
    let a = c.step(RetryEvent::OpenFailed(OpenErrorKind::Io));
    assert_eq!(a, RetryAction::ReportOpenError);
    assert_eq!(c.state, RetryState::Failed);
}

#[test]
fn waiting_device_appears_after_two_intervals() {
    let (action, paused, failures) = drive(true, 2);
    assert_eq!(action, RetryAction::UsePort);
    assert_eq!(failures, 2);
    assert_eq!(paused, 200);
    assert!(paused < WAIT_MILLISECONDS);
}

#[test]
fn waiting_succeeds_after_k_intervals() {
    for k in [0u64, 1, 5, 50, 98] {
        let (action, paused, _) = drive(true, k);
        assert_eq!(action, RetryAction::UsePort);
        assert_eq!(paused, k * WAIT_INTERVAL_MILLISECONDS);
    }
}

#[test]
fn waiting_times_out_when_device_never_appears() {
    let (action, paused, failures) = drive(true, u64::MAX);
    assert_eq!(action, RetryAction::ReportTimeout);
    assert_eq!(failures, max_attempts());
    assert_eq!(failures, 99);
    assert_eq!(paused, 9_900);
    assert_eq!(timeout_detail(), "Failed to open device after 10 seconds");
}

#[test]
fn stray_event_leaves_state() {
    let mut c = RetryCoordinator::new(true);
    assert_eq!(c.step(RetryEvent::Slept), RetryAction::Open);
    assert_eq!(c.state, RetryState::Attempting { attempt: 1 });
    assert_eq!(c.step(RetryEvent::OpenFailed(OpenErrorKind::NoDevice)),
        RetryAction::Sleep { millis: 100 });
    assert_eq!(c.step(RetryEvent::Slept), RetryAction::Open);
    assert_eq!(c.state, RetryState::Attempting { attempt: 2 });
}

#[test]
fn relay_passes_bytes_verbatim() {
    let buf: Vec<u8> = vec![7, 0, 255, 42, 9, 9];
    match inbound_step(&buf, ReadOutcome::Data(4)) {
        Relay::Emit(out) => assert_eq!(out, vec![7, 0, 255, 42]),
        other => panic!("unexpected {:?}", other),
    }
    let mut output: Vec<u8> = Vec::new();
    let reads = [
        (vec![1u8, 2, 3], ReadOutcome::Data(3)),
        (vec![0u8; 4], ReadOutcome::TimedOut),
        (vec![4u8, 5, 6], ReadOutcome::Data(0)),
        (vec![4u8, 5, 6], ReadOutcome::Data(2)),
    ];
    for (b, o) in reads {
        match inbound_step(&b, o) {
            Relay::Emit(out) => output.extend(out),
            Relay::Idle => {}
            Relay::Exit { .. } => panic!("session ended"),
        }
    }
    assert_eq!(output, vec![1, 2, 3, 4, 5]);
}

#[test]
fn empty_read_emits_nothing() {
    let buf = vec![1u8; 1000];
    match inbound_step(&buf, ReadOutcome::Data(0)) {
        Relay::Emit(out) => assert!(out.is_empty()),
        other => panic!("unexpected {:?}", other),
    }
}

#[test]
fn timeout_is_idle_and_other_errors_exit() {
    let buf = vec![0u8; 10];
    assert!(matches!(inbound_step(&buf, ReadOutcome::TimedOut), Relay::Idle));
    match inbound_step(&buf, ReadOutcome::Failed("broken pipe".to_string())) {
        Relay::Exit { code, diagnostic } => {
            assert_eq!(code, FAILURE_EXIT_CODE);
            assert_eq!(diagnostic, "broken pipe");
        }
        other => panic!("unexpected {:?}", other),
    }
}

#[test]
fn outbound_sends_each_byte() {
    assert!(matches!(outbound_step(InputEvent::Byte(b'a')), Outbound::Send(b'a')));
    assert!(matches!(outbound_step(InputEvent::Closed), Outbound::Stop));
    match outbound_step(InputEvent::WriteFailed("gone".to_string())) {
        Outbound::Exit { code, diagnostic } => {
            assert_eq!(code, 1);
            assert_eq!(diagnostic, "gone");
        }
        other => panic!("unexpected {:?}", other),
    }
    assert!(matches!(
        outbound_step(InputEvent::ReadFailed("eof".to_string())),
        Outbound::Exit { code: 1, .. }
    ));
}

/// Sends `data` through a device that takes at most `take` bytes per write.
fn send(data: Vec<u8>, take: usize) -> (Vec<u8>, TransferStep) {
    let mut t = FileTransfer::new(data);
    let mut device: Vec<u8> = Vec::new();
    let mut step = t.step();
    while let TransferStep::WriteMore = step {
        let rest = t.remaining();
        let n = rest.len().min(take);
        device.extend_from_slice(&rest[..n]);
        step = t.on_write(WriteOutcome::Wrote(n));
    }
    (device, step)
}

#[test]
fn file_of_ten_bytes_is_sent_whole() {
    let data: Vec<u8> = (0u8..10).collect();
    let (device, step) = send(data.clone(), 1000);
    assert_eq!(device, data);
    assert_eq!(device.len(), 10);
    match step {
        TransferStep::Done { settle_millis, code } => {
            assert_eq!(code, SUCCESS_EXIT_CODE);
            assert_eq!(settle_millis, SETTLE_MILLISECONDS);
        }
        other => panic!("unexpected {:?}", other),
    }
}

#[test]
fn partial_writes_keep_order() {
    let data: Vec<u8> = (0..=255u8).rev().collect();
    let (device, step) = send(data.clone(), 7);
    assert_eq!(device, data);
    assert!(matches!(step, TransferStep::Done { code: 0, .. }));
}

#[test]
fn empty_file_is_done_at_once() {
    let t = FileTransfer::new(Vec::new());
    assert!(matches!(t.step(), TransferStep::Done { code: 0, settle_millis: 500 }));
    assert!(t.remaining().is_empty());
}

#[test]
fn write_errors_end_transfer() {
    let mut t = FileTransfer::new(vec![1, 2, 3]);
    assert!(matches!(t.on_write(WriteOutcome::Interrupted), TransferStep::WriteMore));
    assert!(matches!(t.on_write(WriteOutcome::Wrote(1)), TransferStep::WriteMore));
    assert_eq!(t.sent(), 1);
    assert_eq!(t.remaining(), vec![2, 3]);
    match t.on_write(WriteOutcome::Wrote(0)) {
        TransferStep::Exit { code, diagnostic } => {
            assert_eq!(code, 1);
            assert_eq!(diagnostic, "failed to write whole buffer");
        }
        other => panic!("unexpected {:?}", other),
    }
    match t.on_write(WriteOutcome::Failed("busy".to_string())) {
        TransferStep::Exit { code, diagnostic } => {
            assert_eq!(code, 1);
            assert_eq!(diagnostic, "busy");
        }
        other => panic!("unexpected {:?}", other),
    }
    assert_eq!(t.sent(), 1);
    assert_eq!(t.len(), 3);
}

#[test]
fn config_selects_mode() {
    let mut c = Config::new("/dev/ttyUSB0".to_string());
    assert_eq!(c.baud, DEFAULT_BAUD);
    assert_eq!(c.baud, 115_200);
    assert!(!c.wait);
    assert_eq!(c.mode(), Mode::Interactive);
    c.baud = 9600;
    c.input_file = Some("data.bin".to_string());
    assert_eq!(c.mode(), Mode::FileSend);
}
