//! The transport configuration: the line parameters and the timeout of one
//! run, checked when they are built and never again.

use crate::decimal::{decimal_value, parse_decimal};
use crate::line::{
    standard_rate, stop_bits_of_count, width_of_bits, BaudRate, CharSize, FlowControl, StopBits,
};
use vstd::prelude::*;
use vstd::string::*;

verus! {

/// Why a transport parameter was turned down.
#[derive(Clone, Debug, PartialEq, Eq)]
pub enum ConfigError {
    /// The baud rate, as it was given, is not a standard rate.
    UnsupportedBaudRate(String),
    InvalidCharacterWidth,
    InvalidStopBits,
    /// The flow-control mode, as it was given, is not one of the three tokens.
    InvalidFlowControl(String),
}

/// A `ConfigError` with the text that it names held as characters.
pub enum ConfigFault {
    UnsupportedBaudRate(Seq<char>),
    InvalidCharacterWidth,
    InvalidStopBits,
    InvalidFlowControl(Seq<char>),
}

impl View for ConfigError {
    type V = ConfigFault;

    open spec fn view(&self) -> ConfigFault {
        match self {
            ConfigError::UnsupportedBaudRate(value) => ConfigFault::UnsupportedBaudRate(value@),
            ConfigError::InvalidCharacterWidth => ConfigFault::InvalidCharacterWidth,
            ConfigError::InvalidStopBits => ConfigFault::InvalidStopBits,
            ConfigError::InvalidFlowControl(token) => ConfigFault::InvalidFlowControl(token@),
        }
    }
}

/// The baud rate that `text` asks for: `text` must write, in decimal, the
/// speed of a standard rate.
pub open spec fn accepted_baud_rate(text: Seq<char>) -> Option<BaudRate> {
    match decimal_value(text) {
        Some(speed) => standard_rate(speed as int),
        None => None,
    }
}

/// The character width that `text` asks for: `text` must write 5, 6, 7 or 8.
pub open spec fn accepted_width(text: Seq<char>) -> Option<CharSize> {
    match decimal_value(text) {
        Some(bits) => width_of_bits(bits as int),
        None => None,
    }
}

/// The stop bits that `text` asks for: `text` must write 1 or 2.
pub open spec fn accepted_stop_bits(text: Seq<char>) -> Option<StopBits> {
    match decimal_value(text) {
        Some(count) => stop_bits_of_count(count as int),
        None => None,
    }
}

/// The flow control that `token` asks for: `token` must be, letter for
/// letter, `none`, `hardware` or `software`.
pub open spec fn accepted_flow_control(token: Seq<char>) -> Option<FlowControl> {
    if token == "none"@ {
        Some(FlowControl::FlowNone)
    } else if token == "hardware"@ {
        Some(FlowControl::FlowHardware)
    } else if token == "software"@ {
        Some(FlowControl::FlowSoftware)
    } else {
        None
    }
}

/// Whether `text` is, character for character, the ASCII text `token`.
fn same_text(text: &str, token: &str) -> (same: bool)
    requires
        is_ascii(token),
    ensures
        same == (text@ == token@),
{
    if !text.is_ascii() {
        return false;
    }
    proof {
        is_ascii_spec_bytes(text);
        is_ascii_spec_bytes(token);
    }
    let left = text.as_bytes();
    let right = token.as_bytes();
    let length: usize = left.len();
    if length != right.len() {
        return false;
    }
    let mut at: usize = 0;
    while at < length
        invariant
            at <= length,
            length == text@.len(),
            length == token@.len(),
            is_ascii(text),
            is_ascii(token),
            left@ =~= Seq::new(text@.len(), |i: int| text@[i] as u8),
            right@ =~= Seq::new(token@.len(), |i: int| token@[i] as u8),
            forall|i: int| 0 <= i < at ==> text@[i] == token@[i],
        decreases length - at,
    {
        if left[at] != right[at] {
            assert(text@[at as int] != token@[at as int]);
            return false;
        }
        assert(text@[at as int] as u8 == token@[at as int] as u8);
        at += 1;
    }
    assert(text@ =~= token@);
    true
}

/// Reads a baud rate. Accepted are the standard rates, written in decimal;
/// any other number, and anything that is no number, is turned down as it
/// was given.
pub fn parse_baud_rate(text: &str) -> (result: Result<BaudRate, ConfigError>)
    ensures
        match result {
            Ok(rate) => accepted_baud_rate(text@) == Some(rate),
            Err(error) => accepted_baud_rate(text@) is None && error@
                == ConfigFault::UnsupportedBaudRate(text@),
        },
{
    let rate = match parse_decimal(text) {
        Some(speed) => BaudRate::from_speed(speed),
        None => None,
    };
    match rate {
        Some(rate) => Ok(rate),
        None => Err(ConfigError::UnsupportedBaudRate(text.to_owned())),
    }
}

/// Reads a character width: 5, 6, 7 or 8 and no other.
pub fn parse_width(text: &str) -> (result: Result<CharSize, ConfigError>)
    ensures
        match result {
            Ok(width) => accepted_width(text@) == Some(width),
            Err(error) => accepted_width(text@) is None && error
                == ConfigError::InvalidCharacterWidth,
        },
{
    let width = match parse_decimal(text) {
        Some(bits) => CharSize::from_bits(bits),
        None => None,
    };
    match width {
        Some(width) => Ok(width),
        None => Err(ConfigError::InvalidCharacterWidth),
    }
}

/// Reads a number of stop bits: 1 or 2 and no other.
pub fn parse_stop_bits(text: &str) -> (result: Result<StopBits, ConfigError>)
    ensures
        match result {
            Ok(stop) => accepted_stop_bits(text@) == Some(stop),
            Err(error) => accepted_stop_bits(text@) is None && error
                == ConfigError::InvalidStopBits,
        },
{
    let stop = match parse_decimal(text) {
        Some(count) => StopBits::from_count(count),
        None => None,
    };
    match stop {
        Some(stop) => Ok(stop),
        None => Err(ConfigError::InvalidStopBits),
    }
}

/// Reads a flow-control mode: `none`, `hardware` or `software`, in exactly
/// this spelling; any other token is turned down as it was given.
pub fn parse_flow_control(token: &str) -> (result: Result<FlowControl, ConfigError>)
    ensures
        match result {
            Ok(flow) => accepted_flow_control(token@) == Some(flow),
            Err(error) => accepted_flow_control(token@) is None && error@
                == ConfigFault::InvalidFlowControl(token@),
        },
{
    proof {
        reveal_strlit("none");
        reveal_strlit("hardware");
        reveal_strlit("software");
    }
    if same_text(token, "none") {
        Ok(FlowControl::FlowNone)
    } else if same_text(token, "hardware") {
        Ok(FlowControl::FlowHardware)
    } else if same_text(token, "software") {
        Ok(FlowControl::FlowSoftware)
    } else {
        Err(ConfigError::InvalidFlowControl(token.to_owned()))
    }
}

/// The settings of the serial line for one run. Every field is drawn from a
/// closed set of accepted values, so a value of this type can always be
/// applied to a device as it stands.
#[derive(Clone, Copy, Debug, PartialEq, Eq, Structural)]
pub struct TransportConfig {
    pub baud_rate: BaudRate,
    pub char_width: CharSize,
    pub stop_bits: StopBits,
    pub flow_control: FlowControl,
    /// Seconds that one read or one write may block.
    pub timeout: u64,
}

impl TransportConfig {
    /// The configuration used where nothing else is asked for: 115200 baud,
    /// 8 bits, 1 stop bit, no flow control, 10 seconds.
    pub open spec fn standard() -> TransportConfig {
        TransportConfig {
            baud_rate: BaudRate::Baud115200,
            char_width: CharSize::Bits8,
            stop_bits: StopBits::Stop1,
            flow_control: FlowControl::FlowNone,
            timeout: 10,
        }
    }
}

/// The configuration that four parameters and a timeout make, or the first
/// reason to turn them down. The parameters are checked in the order baud
/// rate, character width, stop bits, flow control.
pub open spec fn checked_config(
    baud_rate: Seq<char>,
    char_width: Seq<char>,
    stop_bits: Seq<char>,
    flow_control: Seq<char>,
    timeout: u64,
) -> Result<TransportConfig, ConfigFault> {
    if accepted_baud_rate(baud_rate) is None {
        Err(ConfigFault::UnsupportedBaudRate(baud_rate))
    } else if accepted_width(char_width) is None {
        Err(ConfigFault::InvalidCharacterWidth)
    } else if accepted_stop_bits(stop_bits) is None {
        Err(ConfigFault::InvalidStopBits)
    } else if accepted_flow_control(flow_control) is None {
        Err(ConfigFault::InvalidFlowControl(flow_control))
    } else {
        Ok(
            TransportConfig {
                baud_rate: accepted_baud_rate(baud_rate)->0,
                char_width: accepted_width(char_width)->0,
                stop_bits: accepted_stop_bits(stop_bits)->0,
                flow_control: accepted_flow_control(flow_control)->0,
                timeout,
            },
        )
    }
}

impl TransportConfig {
    /// Builds the configuration from the parameters as they were given, or
    /// says which of them is the first that cannot be accepted. Nothing is
    /// touched: the parameters are only read.
    pub fn build(
        baud_rate: &str,
        char_width: &str,
        stop_bits: &str,
        flow_control: &str,
        timeout: u64,
    ) -> (result: Result<TransportConfig, ConfigError>)
        ensures
            match result {
                Ok(config) => checked_config(
                    baud_rate@,
                    char_width@,
                    stop_bits@,
                    flow_control@,
                    timeout,
                ) == Ok::<TransportConfig, ConfigFault>(config),
                Err(error) => checked_config(
                    baud_rate@,
                    char_width@,
                    stop_bits@,
                    flow_control@,
                    timeout,
                ) == Err::<TransportConfig, ConfigFault>(error@),
            },
    {
        let baud_rate = match parse_baud_rate(baud_rate) {
            Ok(rate) => rate,
            Err(error) => {
                return Err(error);
            },
        };
        let char_width = match parse_width(char_width) {
            Ok(width) => width,
            Err(error) => {
                return Err(error);
            },
        };
        let stop_bits = match parse_stop_bits(stop_bits) {
            Ok(stop) => stop,
            Err(error) => {
                return Err(error);
            },
        };
        let flow_control = match parse_flow_control(flow_control) {
            Ok(flow) => flow,
            Err(error) => {
                return Err(error);
            },
        };
        Ok(TransportConfig { baud_rate, char_width, stop_bits, flow_control, timeout })
    }
}

/// A baud rate that is not a standard rate is always turned down, and is
/// named in the refusal: whatever the other parameters are, no configuration
/// comes of a text that writes no standard speed.
pub proof fn lemma_unlisted_baud_rate_is_rejected(
    baud_rate: Seq<char>,
    char_width: Seq<char>,
    stop_bits: Seq<char>,
    flow_control: Seq<char>,
    timeout: u64,
)
    requires
        forall|rate: BaudRate| decimal_value(baud_rate) != Some(rate.speed_spec() as nat),
    ensures
        accepted_baud_rate(baud_rate) is None,
        checked_config(baud_rate, char_width, stop_bits, flow_control, timeout) == Err::<
            TransportConfig,
            ConfigFault,
        >(ConfigFault::UnsupportedBaudRate(baud_rate)),
{
    if accepted_baud_rate(baud_rate) is Some {
        let rate = accepted_baud_rate(baud_rate)->0;
        assert(decimal_value(baud_rate) == Some(rate.speed_spec() as nat));
    }
}

/// A character width other than 5, 6, 7 and 8, and a stop-bit count other
/// than 1 and 2, is always turned down, each with its own kind of error:
/// beside parameters that are accepted, the width gives
/// `InvalidCharacterWidth` and the stop bits give `InvalidStopBits`.
pub proof fn lemma_unlisted_width_and_stop_bits_are_rejected(
    baud_rate: Seq<char>,
    char_width: Seq<char>,
    stop_bits: Seq<char>,
    flow_control: Seq<char>,
    timeout: u64,
)
    requires
        accepted_baud_rate(baud_rate) is Some,
    ensures
        !(decimal_value(char_width) matches Some(bits) && 5 <= bits <= 8) ==> checked_config(
            baud_rate,
            char_width,
            stop_bits,
            flow_control,
            timeout,
        ) == Err::<TransportConfig, ConfigFault>(ConfigFault::InvalidCharacterWidth),
        accepted_width(char_width) is Some && !(decimal_value(stop_bits) matches Some(count) && 1
            <= count <= 2) ==> checked_config(
            baud_rate,
            char_width,
            stop_bits,
            flow_control,
            timeout,
        ) == Err::<TransportConfig, ConfigFault>(ConfigFault::InvalidStopBits),
{
}

impl Default for TransportConfig {
    fn default() -> (config: TransportConfig)
        ensures
            config == TransportConfig::standard(),
    {
        TransportConfig {
            baud_rate: BaudRate::Baud115200,
            char_width: CharSize::Bits8,
            stop_bits: StopBits::Stop1,
            flow_control: FlowControl::FlowNone,
            timeout: 10,
        }
    }
}

} // verus!
