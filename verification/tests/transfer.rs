use ttywrite::config::{ConfigError, TransportConfig};
use ttywrite::line::{BaudRate, CharSize, FlowControl, Parity, StopBits};
use ttywrite::settings::LineSettings;
use ttywrite::transfer::{
    Action, EngineError, Event, Failure, FailureKind, Mode, Orchestrator, Phase, Progress,
    Source, Stage, TransferOutcome, TransferRequest,
};

/// What a made-up device and source answer to each action.
struct Bench {
    device_opens: bool,
    baseline: LineSettings,
    settings_accepted: bool,
    timeout_accepted: bool,
    source_opens: bool,
    reads: Vec<Vec<u8>>,
    read_fails_at: Option<usize>,
    write_fails_at: Option<usize>,
    notes: Vec<Progress>,
    engine: Result<u64, EngineError>,
    asked: Vec<Action>,
    device: Vec<u8>,
    reads_done: usize,
    writes_done: usize,
    notes_done: usize,
}

fn bench() -> Bench {
    Bench {
        device_opens: true,
        baseline: LineSettings {
            baud_rate: Some(BaudRate::Baud115200),
            char_width: Some(CharSize::Bits7),
            parity: Some(Parity::ParityOdd),
            stop_bits: Some(StopBits::Stop2),
            flow_control: Some(FlowControl::FlowSoftware),
        },
        settings_accepted: true,
        timeout_accepted: true,
        source_opens: true,
        reads: Vec::new(),
        read_fails_at: None,
        write_fails_at: None,
        notes: Vec::new(),
        engine: Ok(0),
        asked: Vec::new(),
        device: Vec::new(),
        reads_done: 0,
        writes_done: 0,
        notes_done: 0,
    }
}

fn answer(bench: &mut Bench, action: &Action) -> Option<Event> {
    match action {
        Action::OpenDevice(_) => Some(if bench.device_opens {
            Event::DeviceOpened
        } else {
            Event::DeviceOpenFailed
        }),
        Action::ReadSettings => Some(Event::SettingsRead(bench.baseline)),
        Action::WriteSettings(_) => Some(if bench.settings_accepted {
            Event::SettingsWritten
        } else {
            Event::SettingsRejected
        }),
        Action::SetTimeout(_) => Some(if bench.timeout_accepted {
            Event::TimeoutSet
        } else {
            Event::TimeoutRejected
        }),
        Action::OpenSource(_) => Some(if bench.source_opens {
            Event::SourceOpened
        } else {
            Event::SourceOpenFailed
        }),
        Action::ReadSource => {
            let at = bench.reads_done;
            bench.reads_done += 1;
            if bench.read_fails_at == Some(at) {
                Some(Event::SourceReadFailed)
            } else if at < bench.reads.len() {
                Some(Event::SourceRead(bench.reads[at].clone()))
            } else {
                Some(Event::SourceRead(Vec::new()))
            }
        }
        Action::WriteDevice(bytes) => {
            let at = bench.writes_done;
            bench.writes_done += 1;
            if bench.write_fails_at == Some(at) {
                Some(Event::DeviceWriteFailed)
            } else {
                bench.device.extend_from_slice(bytes);
                Some(Event::DeviceWritten)
            }
        }
        Action::Transmit | Action::Relay(_) => {
            if bench.notes_done < bench.notes.len() {
                bench.notes_done += 1;
                Some(Event::Progressed(bench.notes[bench.notes_done - 1]))
            } else {
                Some(match bench.engine {
                    Ok(bytes) => Event::EngineFinished(bytes),
                    Err(error) => Event::EngineFailed(error),
                })
            }
        }
        Action::Finish(_) | Action::Ignore => None,
    }
}

fn drive(bench: &mut Bench, config: TransportConfig, request: TransferRequest) -> TransferOutcome {
    let (mut machine, mut action) = Orchestrator::start(config, request);
    for _ in 0..10_000 {
        bench.asked.push(action.clone());
        let event = match answer(bench, &action) {
            Some(event) => event,
            None => break,
        };
        assert!(machine.can_take(&event));
        action = machine.step(event);
    }
    match action {
        Action::Finish(outcome) => {
            assert_eq!(machine.outcome(), Some(outcome));
            assert_eq!(machine.phase, Phase::Done(outcome));
            outcome
        }
        other => panic!("the run did not end: {:?}", other),
    }
}

fn config_9600() -> TransportConfig {
    TransportConfig::build("9600", "8", "1", "none", 5).unwrap()
}

fn raw_file() -> TransferRequest {
    TransferRequest::new(String::from("/dev/ttyUSB0"), Some(String::from("image.bin")), true)
}

fn protocol_file() -> TransferRequest {
    TransferRequest::new(String::from("/dev/ttyUSB0"), Some(String::from("image.bin")), false)
}

fn failure(kind: FailureKind, stage: Stage) -> TransferOutcome {
    TransferOutcome::Failed(Failure { kind, stage })
}

#[test]
fn request_names_file_or_standard_input() {
    let request = TransferRequest::new(String::from("/dev/tty0"), None, false);
    assert_eq!(request.device_path, "/dev/tty0");
    assert_eq!(request.source, Source::Stdin);
    assert_eq!(request.mode, Mode::Protocol);
    let request = TransferRequest::new(String::from("/dev/tty1"), Some(String::from("a.bin")), true);
    assert_eq!(request.source, Source::File(String::from("a.bin")));
    assert_eq!(request.mode, Mode::Raw);
}

#[test]
fn raw_copy_of_an_empty_file_reports_zero_bytes() {
    let mut bench = bench();
    let outcome = drive(&mut bench, config_9600(), raw_file());
    assert_eq!(outcome, TransferOutcome::Transferred(0));
    assert!(outcome.succeeded());
    assert!(bench.device.is_empty());
    assert_eq!(
        bench.asked,
        vec![
            Action::OpenDevice(String::from("/dev/ttyUSB0")),
            Action::ReadSettings,
            Action::WriteSettings(LineSettings {
                baud_rate: Some(BaudRate::Baud9600),
                char_width: Some(CharSize::Bits8),
                parity: Some(Parity::ParityOdd),
                stop_bits: Some(StopBits::Stop1),
                flow_control: Some(FlowControl::FlowNone),
            }),
            Action::SetTimeout(5),
            Action::OpenSource(Source::File(String::from("image.bin"))),
            Action::ReadSource,
            Action::Finish(TransferOutcome::Transferred(0)),
        ]
    );
}

#[test]
fn raw_copy_is_byte_for_byte() {
    let mut bench = bench();
    let input: Vec<u8> = (0..1000u32).map(|i| (i * 7 % 256) as u8).collect();
    bench.reads = vec![input[..1].to_vec(), input[1..513].to_vec(), input[513..].to_vec()];
    let outcome = drive(&mut bench, config_9600(), raw_file());
    assert_eq!(outcome, TransferOutcome::Transferred(1000));
    assert_eq!(bench.device, input);
}

#[test]
fn raw_copy_from_standard_input_ends_at_end_of_stream() {
    let mut bench = bench();
    bench.reads = vec![b"hello ".to_vec(), b"world\n".to_vec()];
    let request = TransferRequest::new(String::from("/dev/ttyS0"), None, true);
    let outcome = drive(&mut bench, TransportConfig::default(), request);
    assert_eq!(outcome, TransferOutcome::Transferred(12));
    assert_eq!(bench.device, b"hello world\n".to_vec());
    assert_eq!(bench.asked[4], Action::OpenSource(Source::Stdin));
    assert_eq!(bench.asked[3], Action::SetTimeout(10));
}

#[test]
fn device_that_does_not_open_ends_the_run_before_any_setting() {
    let mut bench = bench();
    bench.device_opens = false;
    let outcome = drive(&mut bench, config_9600(), raw_file());
    assert_eq!(outcome, failure(FailureKind::DeviceUnavailable, Stage::OpenDevice));
    assert!(!outcome.succeeded());
    assert_eq!(
        bench.asked,
        vec![Action::OpenDevice(String::from("/dev/ttyUSB0")), Action::Finish(outcome)]
    );
}

#[test]
fn settings_that_cannot_be_read_end_the_run() {
    let (mut machine, _) = Orchestrator::start(config_9600(), raw_file());
    assert_eq!(machine.step(Event::DeviceOpened), Action::ReadSettings);
    let outcome = failure(FailureKind::DeviceUnavailable, Stage::ReadSettings);
    assert_eq!(machine.step(Event::SettingsReadFailed), Action::Finish(outcome));
    assert_eq!(machine.outcome(), Some(outcome));
}

#[test]
fn rejected_settings_end_the_run() {
    let mut bench = bench();
    bench.settings_accepted = false;
    let outcome = drive(&mut bench, config_9600(), protocol_file());
    assert_eq!(outcome, failure(FailureKind::UnsupportedSetting, Stage::WriteSettings));
    assert_eq!(bench.asked.len(), 4);
}

#[test]
fn rejected_timeout_ends_the_run() {
    let mut bench = bench();
    bench.timeout_accepted = false;
    let outcome = drive(&mut bench, config_9600(), protocol_file());
    assert_eq!(outcome, failure(FailureKind::TimeoutUnsupported, Stage::SetTimeout));
    assert_eq!(bench.asked.len(), 5);
}

#[test]
fn source_that_does_not_open_ends_the_run() {
    let mut bench = bench();
    bench.source_opens = false;
    let outcome = drive(&mut bench, config_9600(), raw_file());
    assert_eq!(outcome, failure(FailureKind::SourceUnavailable, Stage::OpenSource));
    assert!(bench.device.is_empty());
}

#[test]
fn failed_read_ends_a_raw_copy() {
    let mut bench = bench();
    bench.reads = vec![vec![1, 2, 3], vec![4, 5]];
    bench.read_fails_at = Some(1);
    let outcome = drive(&mut bench, config_9600(), raw_file());
    assert_eq!(outcome, failure(FailureKind::TransportIoError, Stage::Transfer));
    assert_eq!(bench.device, vec![1, 2, 3]);
}

#[test]
fn failed_write_ends_a_raw_copy() {
    let mut bench = bench();
    bench.reads = vec![vec![1, 2, 3], vec![4, 5]];
    bench.write_fails_at = Some(1);
    let outcome = drive(&mut bench, config_9600(), raw_file());
    assert_eq!(outcome, failure(FailureKind::TransportIoError, Stage::Transfer));
    assert_eq!(bench.device, vec![1, 2, 3]);
    assert_eq!(bench.reads_done, 2);
}

#[test]
fn protocol_run_reports_the_count_of_the_engine() {
    let mut bench = bench();
    bench.engine = Ok(4096);
    bench.notes = vec![Progress::Started, Progress::Packet(1), Progress::Packet(2), Progress::Complete];
    let outcome = drive(&mut bench, config_9600(), protocol_file());
    assert_eq!(outcome, TransferOutcome::Transferred(4096));
    assert_eq!(
        bench.asked[5..],
        [
            Action::Transmit,
            Action::Relay(Progress::Started),
            Action::Relay(Progress::Packet(1)),
            Action::Relay(Progress::Packet(2)),
            Action::Relay(Progress::Complete),
            Action::Finish(TransferOutcome::Transferred(4096)),
        ]
    );
    assert!(bench.device.is_empty());
}

#[test]
fn exhausted_retries_of_the_engine_are_the_outcome() {
    let mut bench = bench();
    bench.engine = Err(EngineError::MaxRetriesExceeded);
    bench.notes = vec![Progress::Started, Progress::TimeoutRetry];
    let outcome = drive(&mut bench, config_9600(), protocol_file());
    assert_eq!(
        outcome,
        failure(FailureKind::Engine(EngineError::MaxRetriesExceeded), Stage::Transfer)
    );
    assert!(!outcome.succeeded());
}

#[test]
fn every_engine_failure_keeps_its_kind() {
    for error in [
        EngineError::ChecksumMismatch,
        EngineError::PeerAborted,
        EngineError::MaxRetriesExceeded,
        EngineError::IoError,
    ] {
        let mut bench = bench();
        bench.engine = Err(error);
        let outcome = drive(&mut bench, config_9600(), protocol_file());
        assert_eq!(outcome, failure(FailureKind::Engine(error), Stage::Transfer));
    }
}

#[test]
fn events_out_of_turn_are_ignored() {
    let (mut machine, _) = Orchestrator::start(config_9600(), raw_file());
    for event in [
        Event::SettingsWritten,
        Event::TimeoutSet,
        Event::SourceOpened,
        Event::SourceRead(vec![1]),
        Event::DeviceWritten,
        Event::EngineFinished(7),
        Event::Progressed(Progress::Started),
    ] {
        assert_eq!(machine.step(event), Action::Ignore);
        assert_eq!(machine.phase, Phase::Opening);
    }
    assert_eq!(machine.step(Event::DeviceOpened), Action::ReadSettings);
    assert_eq!(machine.step(Event::DeviceOpened), Action::Ignore);
    assert_eq!(machine.phase, Phase::ReadingSettings);
}

#[test]
fn nothing_moves_a_run_that_has_ended() {
    let (mut machine, _) = Orchestrator::start(config_9600(), raw_file());
    let action = machine.step(Event::DeviceOpenFailed);
    let outcome = failure(FailureKind::DeviceUnavailable, Stage::OpenDevice);
    assert_eq!(action, Action::Finish(outcome));
    for event in [Event::DeviceOpened, Event::SettingsRead(bench().baseline), Event::SettingsWritten] {
        assert_eq!(machine.step(event), Action::Ignore);
        assert_eq!(machine.outcome(), Some(outcome));
    }
}

#[test]
fn engine_events_mean_nothing_in_a_raw_copy() {
    let (mut machine, _) = Orchestrator::start(config_9600(), raw_file());
    machine.step(Event::DeviceOpened);
    machine.step(Event::SettingsRead(bench().baseline));
    machine.step(Event::SettingsWritten);
    machine.step(Event::TimeoutSet);
    assert_eq!(machine.step(Event::SourceOpened), Action::ReadSource);
    assert_eq!(machine.step(Event::EngineFinished(9)), Action::Ignore);
    assert_eq!(machine.phase, Phase::Reading { sent: 0 });
    assert_eq!(machine.step(Event::SourceRead(vec![9, 9])), Action::WriteDevice(vec![9, 9]));
    assert_eq!(machine.phase, Phase::Writing { sent: 2 });
    assert_eq!(machine.step(Event::SourceRead(vec![1])), Action::Ignore);
    assert_eq!(machine.step(Event::DeviceWritten), Action::ReadSource);
    assert_eq!(machine.phase, Phase::Reading { sent: 2 });
}

#[test]
fn a_count_past_u64_cannot_be_taken() {
    let mut machine = Orchestrator {
        config: config_9600(),
        request: raw_file(),
        phase: Phase::Reading { sent: u64::MAX - 2 },
    };
    assert!(machine.can_take(&Event::SourceRead(vec![0, 0])));
    assert!(!machine.can_take(&Event::SourceRead(vec![0, 0, 0])));
    assert!(machine.can_take(&Event::SourceRead(Vec::new())));
    assert!(machine.can_take(&Event::DeviceWritten));
    assert_eq!(machine.step(Event::SourceRead(vec![0, 0])), Action::WriteDevice(vec![0, 0]));
    assert_eq!(machine.phase, Phase::Writing { sent: u64::MAX });
    assert!(machine.can_take(&Event::SourceRead(vec![0, 0, 0])));
}

#[test]
fn launch_starts_a_run_with_the_device() {
    let started = Orchestrator::launch("9600", "8", "1", "none", 5, raw_file());
    let (machine, action) = started.unwrap();
    assert_eq!(action, Action::OpenDevice(String::from("/dev/ttyUSB0")));
    assert_eq!(machine.phase, Phase::Opening);
    assert_eq!(machine.config, config_9600());
    assert_eq!(machine.request, raw_file());
    assert_eq!(machine.outcome(), None);
}

#[test]
fn launch_with_baud_rate_31337_opens_nothing() {
    let started = Orchestrator::launch("31337", "8", "1", "none", 5, raw_file());
    assert_eq!(started, Err(ConfigError::UnsupportedBaudRate(String::from("31337"))));
}

#[test]
fn launch_turns_down_each_parameter() {
    assert_eq!(
        Orchestrator::launch("9600", "4", "1", "none", 5, raw_file()),
        Err(ConfigError::InvalidCharacterWidth)
    );
    assert_eq!(
        Orchestrator::launch("9600", "8", "0", "none", 5, raw_file()),
        Err(ConfigError::InvalidStopBits)
    );
    assert_eq!(
        Orchestrator::launch("9600", "8", "1", "Hardware", 5, raw_file()),
        Err(ConfigError::InvalidFlowControl(String::from("Hardware")))
    );
}

#[test]
fn source_clone_is_the_same_source() {
    let file = Source::File(String::from("x"));
    assert_eq!(file.clone(), file);
    assert_eq!(Source::Stdin.clone(), Source::Stdin);
}
