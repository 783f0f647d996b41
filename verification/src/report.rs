//! What is shown to the user: a mark for each notification of progress, and
//! one last line that tells how the run ended.

use crate::config::{ConfigError, ConfigFault};
use crate::decimal::{decimal_text, push_decimal};
use crate::transfer::{EngineError, FailureKind, Progress, Stage, TransferOutcome};
use vstd::prelude::*;
use vstd::string::*;

verus! {

/// What is shown for a notification: a single `#` for a packet, whatever its
/// number, and a line of its own for anything else.
pub open spec fn progress_text(progress: Progress) -> Seq<char> {
    match progress {
        Progress::Packet(_) => "#"@,
        Progress::Started => "Progress: Started\n"@,
        Progress::TimeoutRetry => "Progress: TimeoutRetry\n"@,
        Progress::Complete => "Progress: Complete\n"@,
        Progress::Aborted => "Progress: Aborted\n"@,
    }
}

/// The text to show for `progress`.
pub fn render_progress(progress: Progress) -> (text: &'static str)
    ensures
        text@ == progress_text(progress),
{
    match progress {
        Progress::Packet(_) => "#",
        Progress::Started => "Progress: Started\n",
        Progress::TimeoutRetry => "Progress: TimeoutRetry\n",
        Progress::Complete => "Progress: Complete\n",
        Progress::Aborted => "Progress: Aborted\n",
    }
}

/// The name of a kind of failure.
pub open spec fn kind_text(kind: FailureKind) -> Seq<char> {
    match kind {
        FailureKind::DeviceUnavailable => "device unavailable"@,
        FailureKind::UnsupportedSetting => "setting not supported by the device"@,
        FailureKind::TimeoutUnsupported => "timeout not supported by the device"@,
        FailureKind::SourceUnavailable => "source unavailable"@,
        FailureKind::TransportIoError => "transport I/O error"@,
        FailureKind::Engine(EngineError::ChecksumMismatch) => "checksum mismatch"@,
        FailureKind::Engine(EngineError::PeerAborted) => "aborted by the peer"@,
        FailureKind::Engine(EngineError::MaxRetriesExceeded) => "retries exhausted"@,
        FailureKind::Engine(EngineError::IoError) => "I/O error in the protocol engine"@,
    }
}

/// The name of an operation.
pub open spec fn stage_text(stage: Stage) -> Seq<char> {
    match stage {
        Stage::OpenDevice => "opening the device"@,
        Stage::ReadSettings => "reading the device settings"@,
        Stage::WriteSettings => "writing the device settings"@,
        Stage::SetTimeout => "setting the timeout"@,
        Stage::OpenSource => "opening the source"@,
        Stage::Transfer => "the transfer"@,
    }
}

/// The last line of a run: the number of bytes sent, or the failure with its
/// kind and the operation that it came up in.
pub open spec fn outcome_text(outcome: TransferOutcome) -> Seq<char> {
    match outcome {
        TransferOutcome::Transferred(bytes) => decimal_text(bytes as nat)
            + " bytes transmitted."@,
        TransferOutcome::Failed(failure) => "Error: "@ + kind_text(failure.kind) + " during "@
            + stage_text(failure.stage),
    }
}

fn kind_name(kind: FailureKind) -> (text: &'static str)
    ensures
        text@ == kind_text(kind),
{
    match kind {
        FailureKind::DeviceUnavailable => "device unavailable",
        FailureKind::UnsupportedSetting => "setting not supported by the device",
        FailureKind::TimeoutUnsupported => "timeout not supported by the device",
        FailureKind::SourceUnavailable => "source unavailable",
        FailureKind::TransportIoError => "transport I/O error",
        FailureKind::Engine(EngineError::ChecksumMismatch) => "checksum mismatch",
        FailureKind::Engine(EngineError::PeerAborted) => "aborted by the peer",
        FailureKind::Engine(EngineError::MaxRetriesExceeded) => "retries exhausted",
        FailureKind::Engine(EngineError::IoError) => "I/O error in the protocol engine",
    }
}

fn stage_name(stage: Stage) -> (text: &'static str)
    ensures
        text@ == stage_text(stage),
{
    match stage {
        Stage::OpenDevice => "opening the device",
        Stage::ReadSettings => "reading the device settings",
        Stage::WriteSettings => "writing the device settings",
        Stage::SetTimeout => "setting the timeout",
        Stage::OpenSource => "opening the source",
        Stage::Transfer => "the transfer",
    }
}

impl TransferOutcome {
    /// Whether every byte was delivered.
    pub fn succeeded(&self) -> (ok: bool)
        ensures
            ok == (*self is Transferred),
    {
        match self {
            TransferOutcome::Transferred(_) => true,
            TransferOutcome::Failed(_) => false,
        }
    }

    /// The one line that reports this outcome.
    pub fn message(&self) -> (text: String)
        ensures
            text@ == outcome_text(*self),
    {
        match self {
            TransferOutcome::Transferred(bytes) => {
                let mut text = String::new();
                push_decimal(&mut text, *bytes);
                text.append(" bytes transmitted.");
                assert(text@ =~= outcome_text(*self));
                text
            },
            TransferOutcome::Failed(failure) => {
                let mut text = String::from_str("Error: ");
                text.append(kind_name(failure.kind));
                text.append(" during ");
                text.append(stage_name(failure.stage));
                text
            },
        }
    }
}

/// The line that reports why a parameter was turned down.
pub open spec fn fault_text(fault: ConfigFault) -> Seq<char> {
    match fault {
        ConfigFault::UnsupportedBaudRate(value) => "Error: unsupported baud rate: "@ + value,
        ConfigFault::InvalidCharacterWidth => "Error: character width must be 5, 6, 7 or 8"@,
        ConfigFault::InvalidStopBits => "Error: stop bits must be 1 or 2"@,
        ConfigFault::InvalidFlowControl(token) =>
            "Error: flow control must be none, hardware or software: "@ + token,
    }
}

impl ConfigError {
    /// The one line that reports this error; it names what was turned down.
    pub fn message(&self) -> (text: String)
        ensures
            text@ == fault_text(self@),
    {
        match self {
            ConfigError::UnsupportedBaudRate(value) => {
                let mut text = String::from_str("Error: unsupported baud rate: ");
                text.append(value.as_str());
                text
            },
            ConfigError::InvalidCharacterWidth => String::from_str(
                "Error: character width must be 5, 6, 7 or 8",
            ),
            ConfigError::InvalidStopBits => String::from_str("Error: stop bits must be 1 or 2"),
            ConfigError::InvalidFlowControl(token) => {
                let mut text = String::from_str(
                    "Error: flow control must be none, hardware or software: ",
                );
                text.append(token.as_str());
                text
            },
        }
    }
}

} // verus!
