//! One transfer as a state machine. The machine makes every decision of a
//! run: which operation comes next, what is written to the device, when the
//! run ends and with what outcome. Its caller performs each operation on the
//! device, the source or the protocol engine and reports back what happened.

use crate::config::{
    checked_config, lemma_unlisted_baud_rate_is_rejected, ConfigError, ConfigFault,
    TransportConfig,
};
use crate::decimal::decimal_value;
use crate::line::BaudRate;
use crate::settings::LineSettings;
use vstd::prelude::*;

verus! {

/// Where the bytes to send come from.
#[derive(Debug, PartialEq, Eq)]
pub enum Source {
    /// The file at this path.
    File(String),
    /// Standard input.
    Stdin,
}

impl Clone for Source {
    fn clone(&self) -> (copy: Source)
        ensures
            copy == *self,
    {
        match self {
            Source::File(path) => Source::File(path.clone()),
            Source::Stdin => Source::Stdin,
        }
    }
}

/// How the bytes are sent.
#[derive(Clone, Copy, Debug, PartialEq, Eq, Structural)]
pub enum Mode {
    /// Copied to the device as they are.
    Raw,
    /// Handed to the packet protocol engine.
    Protocol,
}

/// What one run is asked to do.
#[derive(Clone, Debug, PartialEq, Eq)]
pub struct TransferRequest {
    pub device_path: String,
    pub source: Source,
    pub mode: Mode,
}

impl TransferRequest {
    /// The request for sending `input`, or standard input where no file is
    /// named, to the device at `device_path`; through the protocol engine
    /// unless `raw` is set.
    pub fn new(device_path: String, input: Option<String>, raw: bool) -> (request: TransferRequest)
        ensures
            request.device_path == device_path,
            request.source == match input {
                Some(path) => Source::File(path),
                None => Source::Stdin,
            },
            request.mode == if raw {
                Mode::Raw
            } else {
                Mode::Protocol
            },
    {
        let source = match input {
            Some(path) => Source::File(path),
            None => Source::Stdin,
        };
        let mode = if raw {
            Mode::Raw
        } else {
            Mode::Protocol
        };
        TransferRequest { device_path, source, mode }
    }
}

/// The operations of a run, in the order in which they are performed.
#[derive(Clone, Copy, Debug, PartialEq, Eq, Structural)]
pub enum Stage {
    OpenDevice,
    ReadSettings,
    WriteSettings,
    SetTimeout,
    OpenSource,
    Transfer,
}

/// Why the protocol engine gave up.
#[derive(Clone, Copy, Debug, PartialEq, Eq, Structural)]
pub enum EngineError {
    ChecksumMismatch,
    PeerAborted,
    MaxRetriesExceeded,
    IoError,
}

/// The kinds of failure that end a run.
#[derive(Clone, Copy, Debug, PartialEq, Eq, Structural)]
pub enum FailureKind {
    DeviceUnavailable,
    UnsupportedSetting,
    TimeoutUnsupported,
    SourceUnavailable,
    TransportIoError,
    /// The protocol engine failed, for the reason it gave.
    Engine(EngineError),
}

/// A failure and the operation during which it came up.
#[derive(Clone, Copy, Debug, PartialEq, Eq, Structural)]
pub struct Failure {
    pub kind: FailureKind,
    pub stage: Stage,
}

/// How a run ended.
#[derive(Clone, Copy, Debug, PartialEq, Eq, Structural)]
pub enum TransferOutcome {
    /// Every byte of the source was delivered; the count is of payload bytes.
    Transferred(u64),
    Failed(Failure),
}

/// A notification from the protocol engine while it transmits.
#[derive(Clone, Copy, Debug, PartialEq, Eq, Structural)]
pub enum Progress {
    Started,
    /// The packet with this sequence number was sent.
    Packet(u8),
    TimeoutRetry,
    Complete,
    Aborted,
}

/// What the caller reports back to the machine.
#[derive(Clone, Debug, PartialEq, Eq)]
pub enum Event {
    DeviceOpened,
    DeviceOpenFailed,
    /// The device's current settings were read.
    SettingsRead(LineSettings),
    SettingsReadFailed,
    SettingsWritten,
    /// The device refused one of the values it was asked to take.
    SettingsRejected,
    TimeoutSet,
    TimeoutRejected,
    SourceOpened,
    SourceOpenFailed,
    /// One read of the source gave these bytes; none at its end.
    SourceRead(Vec<u8>),
    SourceReadFailed,
    /// The bytes last handed out were all written to the device.
    DeviceWritten,
    DeviceWriteFailed,
    /// The protocol engine notified of progress.
    Progressed(Progress),
    /// The protocol engine delivered this many payload bytes.
    EngineFinished(u64),
    EngineFailed(EngineError),
}

/// What the machine asks its caller to do next.
#[derive(Clone, Debug, PartialEq, Eq)]
pub enum Action {
    /// Open the serial device at this path.
    OpenDevice(String),
    /// Read the device's current settings.
    ReadSettings,
    /// Write these settings to the device.
    WriteSettings(LineSettings),
    /// Set the read and the write timeout to this many seconds.
    SetTimeout(u64),
    /// Open the source behind a buffered reader.
    OpenSource(Source),
    /// Read the next bytes of the source.
    ReadSource,
    /// Write exactly these bytes to the device.
    WriteDevice(Vec<u8>),
    /// Run the protocol engine on the source and the device.
    Transmit,
    /// Pass this notification on to whoever presents it.
    Relay(Progress),
    /// Release the source and the device and report the outcome.
    Finish(TransferOutcome),
    /// The event did not belong to the state; nothing is to be done.
    Ignore,
}

/// Where a run stands.
#[derive(Clone, Copy, Debug, PartialEq, Eq, Structural)]
pub enum Phase {
    Opening,
    ReadingSettings,
    WritingSettings,
    SettingTimeout,
    OpeningSource,
    /// Raw copy, waiting for bytes of the source; `sent` bytes are on the device.
    Reading { sent: u64 },
    /// Raw copy, waiting for the device; `sent` counts the bytes being written.
    Writing { sent: u64 },
    /// The protocol engine is running.
    Transmitting,
    Done(TransferOutcome),
}

/// The outcome of a run that failed with `kind` during `stage`.
pub open spec fn failed(kind: FailureKind, stage: Stage) -> TransferOutcome {
    TransferOutcome::Failed(Failure { kind, stage })
}

/// The state of one run: what it was asked to do, and where it stands.
#[derive(Clone, Debug, PartialEq, Eq)]
pub struct Orchestrator {
    pub config: TransportConfig,
    pub request: TransferRequest,
    pub phase: Phase,
}

impl Orchestrator {
    /// The phase fits the request: bytes are copied only in raw mode, and the
    /// engine runs only in protocol mode.
    pub open spec fn wf(self) -> bool {
        match self.phase {
            Phase::Reading { .. } | Phase::Writing { .. } => self.request.mode == Mode::Raw,
            Phase::Transmitting => self.request.mode == Mode::Protocol,
            _ => true,
        }
    }

    /// The run has ended.
    pub open spec fn done(self) -> bool {
        self.phase is Done
    }

    /// Whether the machine can take `event`: bytes read from the source must
    /// not carry the count of bytes sent past what a `u64` holds.
    pub open spec fn accepts(self, event: Event) -> bool {
        match (self.phase, event) {
            (Phase::Reading { sent }, Event::SourceRead(bytes)) => sent + bytes@.len() <= u64::MAX,
            _ => true,
        }
    }

    /// The phase that follows, and what the caller is asked to do, when
    /// `event` is reported. A failure ends the run at once, with its kind and
    /// the operation that was under way. An event that the phase does not
    /// wait for changes nothing.
    pub open spec fn respond(self, event: Event) -> (Phase, Action) {
        match (self.phase, event) {
            (Phase::Opening, Event::DeviceOpened) => (Phase::ReadingSettings, Action::ReadSettings),
            (Phase::Opening, Event::DeviceOpenFailed) => ending(
                failed(FailureKind::DeviceUnavailable, Stage::OpenDevice),
            ),
            (Phase::ReadingSettings, Event::SettingsRead(baseline)) => (
                Phase::WritingSettings,
                Action::WriteSettings(baseline.overlay_spec(self.config)),
            ),
            (Phase::ReadingSettings, Event::SettingsReadFailed) => ending(
                failed(FailureKind::DeviceUnavailable, Stage::ReadSettings),
            ),
            (Phase::WritingSettings, Event::SettingsWritten) => (
                Phase::SettingTimeout,
                Action::SetTimeout(self.config.timeout),
            ),
            (Phase::WritingSettings, Event::SettingsRejected) => ending(
                failed(FailureKind::UnsupportedSetting, Stage::WriteSettings),
            ),
            (Phase::SettingTimeout, Event::TimeoutSet) => (
                Phase::OpeningSource,
                Action::OpenSource(self.request.source),
            ),
            (Phase::SettingTimeout, Event::TimeoutRejected) => ending(
                failed(FailureKind::TimeoutUnsupported, Stage::SetTimeout),
            ),
            (Phase::OpeningSource, Event::SourceOpened) => match self.request.mode {
                Mode::Raw => (Phase::Reading { sent: 0 }, Action::ReadSource),
                Mode::Protocol => (Phase::Transmitting, Action::Transmit),
            },
            (Phase::OpeningSource, Event::SourceOpenFailed) => ending(
                failed(FailureKind::SourceUnavailable, Stage::OpenSource),
            ),
            (Phase::Reading { sent }, Event::SourceRead(bytes)) => if bytes@.len() == 0 {
                ending(TransferOutcome::Transferred(sent))
            } else {
                (Phase::Writing { sent: (sent + bytes@.len()) as u64 }, Action::WriteDevice(bytes))
            },
            (Phase::Reading { .. }, Event::SourceReadFailed) => ending(
                failed(FailureKind::TransportIoError, Stage::Transfer),
            ),
            (Phase::Writing { sent }, Event::DeviceWritten) => (
                Phase::Reading { sent },
                Action::ReadSource,
            ),
            (Phase::Writing { .. }, Event::DeviceWriteFailed) => ending(
                failed(FailureKind::TransportIoError, Stage::Transfer),
            ),
            (Phase::Transmitting, Event::Progressed(progress)) => (
                Phase::Transmitting,
                Action::Relay(progress),
            ),
            (Phase::Transmitting, Event::EngineFinished(bytes)) => ending(
                TransferOutcome::Transferred(bytes),
            ),
            (Phase::Transmitting, Event::EngineFailed(error)) => ending(
                failed(FailureKind::Engine(error), Stage::Transfer),
            ),
            _ => (self.phase, Action::Ignore),
        }
    }

    /// The machine after `event`, and what the caller is asked to do.
    pub open spec fn next(self, event: Event) -> (Orchestrator, Action) {
        (
            Orchestrator {
                config: self.config,
                request: self.request,
                phase: self.respond(event).0,
            },
            self.respond(event).1,
        )
    }

    /// The machine at the start of a run.
    pub open spec fn initial(config: TransportConfig, request: TransferRequest) -> Orchestrator {
        Orchestrator { config, request, phase: Phase::Opening }
    }

    /// Starts a run: the first thing asked for is the device.
    pub fn start(config: TransportConfig, request: TransferRequest) -> (started: (
        Orchestrator,
        Action,
    ))
        ensures
            started.0 == Orchestrator::initial(config, request),
            started.0.wf(),
            started.1 == Action::OpenDevice(request.device_path),
    {
        let path = request.device_path.clone();
        (Orchestrator { config, request, phase: Phase::Opening }, Action::OpenDevice(path))
    }

    /// Builds the configuration from the parameters as they were given and
    /// starts the run. Where a parameter is turned down there is no run:
    /// nothing is asked of the caller, so no device is opened.
    pub fn launch(
        baud_rate: &str,
        char_width: &str,
        stop_bits: &str,
        flow_control: &str,
        timeout: u64,
        request: TransferRequest,
    ) -> (result: Result<(Orchestrator, Action), ConfigError>)
        ensures
            match result {
                Ok(started) => launched(
                    baud_rate@,
                    char_width@,
                    stop_bits@,
                    flow_control@,
                    timeout,
                    request,
                ) == Ok::<(Orchestrator, Action), ConfigFault>(started),
                Err(error) => launched(
                    baud_rate@,
                    char_width@,
                    stop_bits@,
                    flow_control@,
                    timeout,
                    request,
                ) == Err::<(Orchestrator, Action), ConfigFault>(error@),
            },
    {
        match TransportConfig::build(baud_rate, char_width, stop_bits, flow_control, timeout) {
            Ok(config) => Ok(Orchestrator::start(config, request)),
            Err(error) => Err(error),
        }
    }

    /// Whether `event` can be handed to `step`.
    pub fn can_take(&self, event: &Event) -> (ok: bool)
        ensures
            ok == self.accepts(*event),
    {
        match self.phase {
            Phase::Reading { sent } => match event {
                Event::SourceRead(bytes) => bytes.len() as u64 <= u64::MAX - sent,
                _ => true,
            },
            _ => true,
        }
    }

    /// Ends the run with `outcome`.
    fn end(&mut self, outcome: TransferOutcome) -> (action: Action)
        ensures
            final(self).config == old(self).config,
            final(self).request == old(self).request,
            (final(self).phase, action) == ending(outcome),
    {
        self.phase = Phase::Done(outcome);
        Action::Finish(outcome)
    }

    /// Ends the run with a failure of `kind` during `stage`.
    fn fail(&mut self, kind: FailureKind, stage: Stage) -> (action: Action)
        ensures
            final(self).config == old(self).config,
            final(self).request == old(self).request,
            (final(self).phase, action) == ending(failed(kind, stage)),
    {
        self.end(TransferOutcome::Failed(Failure { kind, stage }))
    }

    /// Moves on to `phase`, asking for `action`.
    fn advance(&mut self, phase: Phase, action: Action) -> (asked: Action)
        ensures
            final(self).config == old(self).config,
            final(self).request == old(self).request,
            final(self).phase == phase,
            asked == action,
    {
        self.phase = phase;
        action
    }

    /// Takes what the caller reports and says what to do next. Operations are
    /// asked for one at a time and in order: the device, its settings, the
    /// timeout, the source, the transfer. The first failure ends the run.
    pub fn step(&mut self, event: Event) -> (action: Action)
        requires
            old(self).accepts(event),
        ensures
            (*final(self), action) == old(self).next(event),
            final(self).config == old(self).config,
            final(self).request == old(self).request,
            old(self).wf() ==> final(self).wf(),
            old(self).done() ==> *final(self) == *old(self) && action == Action::Ignore,
    {
        match self.phase {
            Phase::Opening => match event {
                Event::DeviceOpened => self.advance(Phase::ReadingSettings, Action::ReadSettings),
                Event::DeviceOpenFailed => self.fail(
                    FailureKind::DeviceUnavailable,
                    Stage::OpenDevice,
                ),
                _ => Action::Ignore,
            },
            Phase::ReadingSettings => match event {
                Event::SettingsRead(baseline) => {
                    let merged = baseline.overlay(&self.config);
                    self.advance(Phase::WritingSettings, Action::WriteSettings(merged))
                },
                Event::SettingsReadFailed => self.fail(
                    FailureKind::DeviceUnavailable,
                    Stage::ReadSettings,
                ),
                _ => Action::Ignore,
            },
            Phase::WritingSettings => match event {
                Event::SettingsWritten => {
                    let timeout: u64 = self.config.timeout;
                    self.advance(Phase::SettingTimeout, Action::SetTimeout(timeout))
                },
                Event::SettingsRejected => self.fail(
                    FailureKind::UnsupportedSetting,
                    Stage::WriteSettings,
                ),
                _ => Action::Ignore,
            },
            Phase::SettingTimeout => match event {
                Event::TimeoutSet => {
                    let source = self.request.source.clone();
                    self.advance(Phase::OpeningSource, Action::OpenSource(source))
                },
                Event::TimeoutRejected => self.fail(
                    FailureKind::TimeoutUnsupported,
                    Stage::SetTimeout,
                ),
                _ => Action::Ignore,
            },
            Phase::OpeningSource => match event {
                Event::SourceOpened => match self.request.mode {
                    Mode::Raw => self.advance(Phase::Reading { sent: 0 }, Action::ReadSource),
                    Mode::Protocol => self.advance(Phase::Transmitting, Action::Transmit),
                },
                Event::SourceOpenFailed => self.fail(
                    FailureKind::SourceUnavailable,
                    Stage::OpenSource,
                ),
                _ => Action::Ignore,
            },
            Phase::Reading { sent } => match event {
                Event::SourceRead(bytes) => {
                    if bytes.len() == 0 {
                        self.end(TransferOutcome::Transferred(sent))
                    } else {
                        let total: u64 = sent + bytes.len() as u64;
                        self.advance(Phase::Writing { sent: total }, Action::WriteDevice(bytes))
                    }
                },
                Event::SourceReadFailed => self.fail(
                    FailureKind::TransportIoError,
                    Stage::Transfer,
                ),
                _ => Action::Ignore,
            },
            Phase::Writing { sent } => match event {
                Event::DeviceWritten => self.advance(Phase::Reading { sent }, Action::ReadSource),
                Event::DeviceWriteFailed => self.fail(
                    FailureKind::TransportIoError,
                    Stage::Transfer,
                ),
                _ => Action::Ignore,
            },
            Phase::Transmitting => match event {
                Event::Progressed(progress) => Action::Relay(progress),
                Event::EngineFinished(bytes) => self.end(TransferOutcome::Transferred(bytes)),
                Event::EngineFailed(error) => self.fail(
                    FailureKind::Engine(error),
                    Stage::Transfer,
                ),
                _ => Action::Ignore,
            },
            Phase::Done(_) => Action::Ignore,
        }
    }

    /// The outcome, once the run has ended.
    pub fn outcome(&self) -> (outcome: Option<TransferOutcome>)
        ensures
            outcome == match self.phase {
                Phase::Done(result) => Some(result),
                _ => None,
            },
    {
        match self.phase {
            Phase::Done(result) => Some(result),
            _ => None,
        }
    }
}

/// The run that the parameters and `request` start, with the first thing it
/// asks for; or, where a parameter is turned down, the reason and no run.
pub open spec fn launched(
    baud_rate: Seq<char>,
    char_width: Seq<char>,
    stop_bits: Seq<char>,
    flow_control: Seq<char>,
    timeout: u64,
    request: TransferRequest,
) -> Result<(Orchestrator, Action), ConfigFault> {
    match checked_config(baud_rate, char_width, stop_bits, flow_control, timeout) {
        Ok(config) => Ok(
            (Orchestrator::initial(config, request), Action::OpenDevice(request.device_path)),
        ),
        Err(fault) => Err(fault),
    }
}

/// A baud rate that is not a standard rate keeps the device closed: the
/// launch is turned down with `UnsupportedBaudRate`, naming the text given,
/// and so asks the caller for nothing.
pub proof fn lemma_unlisted_baud_rate_opens_nothing(
    baud_rate: Seq<char>,
    char_width: Seq<char>,
    stop_bits: Seq<char>,
    flow_control: Seq<char>,
    timeout: u64,
    request: TransferRequest,
)
    requires
        forall|rate: BaudRate| decimal_value(baud_rate) != Some(rate.speed_spec() as nat),
    ensures
        launched(baud_rate, char_width, stop_bits, flow_control, timeout, request) == Err::<
            (Orchestrator, Action),
            ConfigFault,
        >(ConfigFault::UnsupportedBaudRate(baud_rate)),
{
    lemma_unlisted_baud_rate_is_rejected(baud_rate, char_width, stop_bits, flow_control, timeout);
}

/// The run ends with `outcome`: the caller is asked to finish with it.
pub open spec fn ending(outcome: TransferOutcome) -> (Phase, Action) {
    (Phase::Done(outcome), Action::Finish(outcome))
}

} // verus!
