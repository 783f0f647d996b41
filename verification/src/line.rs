//! The parameters of a serial line: baud rate, character width, stop bits and
//! flow control, each as a closed set of accepted values.

use vstd::prelude::*;

verus! {

/// A standard baud rate.
#[derive(Clone, Copy, Debug, PartialEq, Eq, Structural)]
pub enum BaudRate {
    Baud110,
    Baud300,
    Baud600,
    Baud1200,
    Baud2400,
    Baud4800,
    Baud9600,
    Baud19200,
    Baud38400,
    Baud57600,
    Baud115200,
}

/// The number of bits in one character.
#[derive(Clone, Copy, Debug, PartialEq, Eq, Structural)]
pub enum CharSize {
    Bits5,
    Bits6,
    Bits7,
    Bits8,
}

/// The number of stop bits after each character.
#[derive(Clone, Copy, Debug, PartialEq, Eq, Structural)]
pub enum StopBits {
    Stop1,
    Stop2,
}

/// The parity bit sent with each character.
#[derive(Clone, Copy, Debug, PartialEq, Eq, Structural)]
pub enum Parity {
    ParityNone,
    ParityOdd,
    ParityEven,
}

/// How the sender is kept from overrunning the receiver.
#[derive(Clone, Copy, Debug, PartialEq, Eq, Structural)]
pub enum FlowControl {
    FlowNone,
    FlowSoftware,
    FlowHardware,
}

/// The standard rate that runs at `speed` baud, if there is one.
pub open spec fn standard_rate(speed: int) -> Option<BaudRate> {
    if speed == 110 {
        Some(BaudRate::Baud110)
    } else if speed == 300 {
        Some(BaudRate::Baud300)
    } else if speed == 600 {
        Some(BaudRate::Baud600)
    } else if speed == 1200 {
        Some(BaudRate::Baud1200)
    } else if speed == 2400 {
        Some(BaudRate::Baud2400)
    } else if speed == 4800 {
        Some(BaudRate::Baud4800)
    } else if speed == 9600 {
        Some(BaudRate::Baud9600)
    } else if speed == 19200 {
        Some(BaudRate::Baud19200)
    } else if speed == 38400 {
        Some(BaudRate::Baud38400)
    } else if speed == 57600 {
        Some(BaudRate::Baud57600)
    } else if speed == 115200 {
        Some(BaudRate::Baud115200)
    } else {
        None
    }
}

/// Calls `serial::core::BaudRate::from_speed`. That function picks the named
/// variant for each of the eleven standard speeds and `BaudOther` for every
/// other number; the contract says which variant comes back, with `BaudOther`
/// turned into `None`. This is taken from the function's source, not proved.
#[verifier::external_body]
fn rate_of_speed(speed: usize) -> (rate: Option<BaudRate>)
    ensures
        rate == standard_rate(speed as int),
{
    match serial::core::BaudRate::from_speed(speed) {
        serial::Baud110 => Some(BaudRate::Baud110),
        serial::Baud300 => Some(BaudRate::Baud300),
        serial::Baud600 => Some(BaudRate::Baud600),
        serial::Baud1200 => Some(BaudRate::Baud1200),
        serial::Baud2400 => Some(BaudRate::Baud2400),
        serial::Baud4800 => Some(BaudRate::Baud4800),
        serial::Baud9600 => Some(BaudRate::Baud9600),
        serial::Baud19200 => Some(BaudRate::Baud19200),
        serial::Baud38400 => Some(BaudRate::Baud38400),
        serial::Baud57600 => Some(BaudRate::Baud57600),
        serial::Baud115200 => Some(BaudRate::Baud115200),
        serial::BaudOther(_) => None,
    }
}

impl BaudRate {
    /// The rate in baud.
    pub open spec fn speed_spec(self) -> int {
        match self {
            BaudRate::Baud110 => 110,
            BaudRate::Baud300 => 300,
            BaudRate::Baud600 => 600,
            BaudRate::Baud1200 => 1200,
            BaudRate::Baud2400 => 2400,
            BaudRate::Baud4800 => 4800,
            BaudRate::Baud9600 => 9600,
            BaudRate::Baud19200 => 19200,
            BaudRate::Baud38400 => 38400,
            BaudRate::Baud57600 => 57600,
            BaudRate::Baud115200 => 115200,
        }
    }

    /// The standard rate of `speed` baud, or `None` where `speed` is not one
    /// of the standard speeds.
    pub fn from_speed(speed: usize) -> (rate: Option<BaudRate>)
        ensures
            rate == standard_rate(speed as int),
            rate matches Some(r) ==> r.speed_spec() == speed,
    {
        rate_of_speed(speed)
    }

    /// The rate in baud.
    pub fn speed(self) -> (speed: usize)
        ensures
            speed == self.speed_spec(),
            standard_rate(speed as int) == Some(self),
    {
        match self {
            BaudRate::Baud110 => 110,
            BaudRate::Baud300 => 300,
            BaudRate::Baud600 => 600,
            BaudRate::Baud1200 => 1200,
            BaudRate::Baud2400 => 2400,
            BaudRate::Baud4800 => 4800,
            BaudRate::Baud9600 => 9600,
            BaudRate::Baud19200 => 19200,
            BaudRate::Baud38400 => 38400,
            BaudRate::Baud57600 => 57600,
            BaudRate::Baud115200 => 115200,
        }
    }
}

/// The character width of `bits` bits, if it is one of 5, 6, 7 and 8.
pub open spec fn width_of_bits(bits: int) -> Option<CharSize> {
    if bits == 5 {
        Some(CharSize::Bits5)
    } else if bits == 6 {
        Some(CharSize::Bits6)
    } else if bits == 7 {
        Some(CharSize::Bits7)
    } else if bits == 8 {
        Some(CharSize::Bits8)
    } else {
        None
    }
}

impl CharSize {
    /// The width in bits.
    pub open spec fn bits_spec(self) -> int {
        match self {
            CharSize::Bits5 => 5,
            CharSize::Bits6 => 6,
            CharSize::Bits7 => 7,
            CharSize::Bits8 => 8,
        }
    }

    /// The width of `bits` bits, or `None` where `bits` is not 5, 6, 7 or 8.
    pub fn from_bits(bits: usize) -> (width: Option<CharSize>)
        ensures
            width == width_of_bits(bits as int),
            width matches Some(w) ==> w.bits_spec() == bits,
    {
        if bits == 5 {
            Some(CharSize::Bits5)
        } else if bits == 6 {
            Some(CharSize::Bits6)
        } else if bits == 7 {
            Some(CharSize::Bits7)
        } else if bits == 8 {
            Some(CharSize::Bits8)
        } else {
            None
        }
    }

    /// The width in bits.
    pub fn bits(self) -> (bits: usize)
        ensures
            bits == self.bits_spec(),
            width_of_bits(bits as int) == Some(self),
    {
        match self {
            CharSize::Bits5 => 5,
            CharSize::Bits6 => 6,
            CharSize::Bits7 => 7,
            CharSize::Bits8 => 8,
        }
    }
}

/// The stop-bit setting for `count` stop bits, if `count` is 1 or 2.
pub open spec fn stop_bits_of_count(count: int) -> Option<StopBits> {
    if count == 1 {
        Some(StopBits::Stop1)
    } else if count == 2 {
        Some(StopBits::Stop2)
    } else {
        None
    }
}

impl StopBits {
    /// The number of stop bits.
    pub open spec fn count_spec(self) -> int {
        match self {
            StopBits::Stop1 => 1,
            StopBits::Stop2 => 2,
        }
    }

    /// The setting for `count` stop bits, or `None` where `count` is not 1 or 2.
    pub fn from_count(count: usize) -> (stop: Option<StopBits>)
        ensures
            stop == stop_bits_of_count(count as int),
            stop matches Some(s) ==> s.count_spec() == count,
    {
        if count == 1 {
            Some(StopBits::Stop1)
        } else if count == 2 {
            Some(StopBits::Stop2)
        } else {
            None
        }
    }

    /// The number of stop bits.
    pub fn count(self) -> (count: usize)
        ensures
            count == self.count_spec(),
            stop_bits_of_count(count as int) == Some(self),
    {
        match self {
            StopBits::Stop1 => 1,
            StopBits::Stop2 => 2,
        }
    }
}

} // verus!
