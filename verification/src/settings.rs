//! The line settings of a device as far as they can be read back from it, and
//! how a configuration is laid over them.

use crate::config::TransportConfig;
use crate::line::{BaudRate, CharSize, FlowControl, Parity, StopBits};
use vstd::prelude::*;

verus! {

/// What a device reports of its line. A field is `None` where the device
/// reports nothing that this library has a value for.
#[derive(Clone, Copy, Debug, PartialEq, Eq, Structural)]
pub struct LineSettings {
    pub baud_rate: Option<BaudRate>,
    pub char_width: Option<CharSize>,
    pub parity: Option<Parity>,
    pub stop_bits: Option<StopBits>,
    pub flow_control: Option<FlowControl>,
}

impl LineSettings {
    /// The settings that result from laying `config` over `self`: baud rate,
    /// character width, stop bits and flow control are those of `config`,
    /// everything else stays as it is in `self`.
    pub open spec fn overlay_spec(self, config: TransportConfig) -> LineSettings {
        LineSettings {
            baud_rate: Some(config.baud_rate),
            char_width: Some(config.char_width),
            parity: self.parity,
            stop_bits: Some(config.stop_bits),
            flow_control: Some(config.flow_control),
        }
    }

    /// Whether the four fields that a configuration sets hold its values.
    pub open spec fn carries(self, config: TransportConfig) -> bool {
        &&& self.baud_rate == Some(config.baud_rate)
        &&& self.char_width == Some(config.char_width)
        &&& self.stop_bits == Some(config.stop_bits)
        &&& self.flow_control == Some(config.flow_control)
    }

    /// Lays `config` over the settings read from the device.
    pub fn overlay(self, config: &TransportConfig) -> (merged: LineSettings)
        ensures
            merged == self.overlay_spec(*config),
            merged.carries(*config),
            merged.parity == self.parity,
    {
        LineSettings {
            baud_rate: Some(config.baud_rate),
            char_width: Some(config.char_width),
            parity: self.parity,
            stop_bits: Some(config.stop_bits),
            flow_control: Some(config.flow_control),
        }
    }
}

/// Laying the same configuration over settings a second time changes nothing,
/// and settings that already carry a configuration are left as they are.
pub proof fn lemma_overlay_idempotent(baseline: LineSettings, config: TransportConfig)
    ensures
        baseline.overlay_spec(config).overlay_spec(config) == baseline.overlay_spec(config),
        baseline.carries(config) ==> baseline.overlay_spec(config) == baseline,
{
}

/// Of two configurations laid over settings one after the other, only the
/// second shows; what neither sets is still the baseline's.
pub proof fn lemma_overlay_last_wins(
    baseline: LineSettings,
    first: TransportConfig,
    second: TransportConfig,
)
    ensures
        baseline.overlay_spec(first).overlay_spec(second) == baseline.overlay_spec(second),
        baseline.overlay_spec(first).overlay_spec(second).parity == baseline.parity,
{
}

} // verus!
