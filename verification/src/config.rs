//! Line settings, and how the raw option codes of the boundary select them.
//!
//! The boundary takes every option as a small integer.  A code that names no
//! setting selects the default, so no option can make an open fail.

use vstd::prelude::*;

verus! {

/// The read timeout that stands in for "wait without limit", in milliseconds.
pub const FALLBACK_TIMEOUT_MS: u64 = 10_000;

/// Data bits per character.
#[derive(Clone, Copy, Debug, PartialEq, Eq, Structural)]
pub enum DataBits {
    Five,
    Six,
    Seven,
    Eight,
}

/// Parity checking.
#[derive(Clone, Copy, Debug, PartialEq, Eq, Structural)]
pub enum Parity {
    Off,
    Odd,
    Even,
}

/// Stop bits per character.
#[derive(Clone, Copy, Debug, PartialEq, Eq, Structural)]
pub enum StopBits {
    One,
    Two,
}

/// Flow control.
#[derive(Clone, Copy, Debug, PartialEq, Eq, Structural)]
pub enum FlowControl {
    Off,
    Software,
    Hardware,
}

/// The settings with which a device is opened.
#[derive(Clone, Copy, Debug, PartialEq, Eq, Structural)]
pub struct PortConfig {
    pub baud_rate: u32,
    pub data_bits: DataBits,
    pub parity: Parity,
    pub stop_bits: StopBits,
    pub flow_control: FlowControl,
    pub timeout_ms: u64,
}

/// 5, 6 and 7 select that many data bits; every other code selects eight.
pub open spec fn data_bits_of(code: u8) -> DataBits {
    if code == 5 {
        DataBits::Five
    } else if code == 6 {
        DataBits::Six
    } else if code == 7 {
        DataBits::Seven
    } else {
        DataBits::Eight
    }
}

/// 1 selects odd parity, 2 even parity; every other code selects none.
pub open spec fn parity_of(code: u8) -> Parity {
    if code == 1 {
        Parity::Odd
    } else if code == 2 {
        Parity::Even
    } else {
        Parity::Off
    }
}

/// 2 selects two stop bits; every other code selects one.
pub open spec fn stop_bits_of(code: u8) -> StopBits {
    if code == 2 {
        StopBits::Two
    } else {
        StopBits::One
    }
}

/// Hardware flow control where the RTS/CTS flag is set; else software flow
/// control where either of the XON and XOFF flags is set; else none.
pub open spec fn flow_control_of(rtscts: u8, xon: u8, xoff: u8) -> FlowControl {
    if rtscts != 0 {
        FlowControl::Hardware
    } else if xon != 0 || xoff != 0 {
        FlowControl::Software
    } else {
        FlowControl::Off
    }
}

/// A timeout that is not negative is taken as it is; a negative one asks for a
/// wait without limit and gets the fallback.
pub open spec fn timeout_of(read_timeout_ms: i32) -> u64 {
    if read_timeout_ms >= 0 {
        read_timeout_ms as u64
    } else {
        FALLBACK_TIMEOUT_MS
    }
}

/// The settings that the raw option codes select.
pub open spec fn config_of(
    baud: u32,
    data_bits: u8,
    parity: u8,
    stop_bits: u8,
    rtscts: u8,
    xon: u8,
    xoff: u8,
    read_timeout_ms: i32,
) -> PortConfig {
    PortConfig {
        baud_rate: baud,
        data_bits: data_bits_of(data_bits),
        parity: parity_of(parity),
        stop_bits: stop_bits_of(stop_bits),
        flow_control: flow_control_of(rtscts, xon, xoff),
        timeout_ms: timeout_of(read_timeout_ms),
    }
}

/// Maps the raw option codes of an open onto line settings.  The baud rate
/// passes through unchanged.
pub fn port_config(
    baud: u32,
    data_bits: u8,
    parity: u8,
    stop_bits: u8,
    rtscts: u8,
    xon: u8,
    xoff: u8,
    read_timeout_ms: i32,
) -> (config: PortConfig)
    ensures
        config == config_of(baud, data_bits, parity, stop_bits, rtscts, xon, xoff, read_timeout_ms),
{
    let data_bits = match data_bits {
        5 => DataBits::Five,
        6 => DataBits::Six,
        7 => DataBits::Seven,
        _ => DataBits::Eight,
    };
    let parity = match parity {
        1 => Parity::Odd,
        2 => Parity::Even,
        _ => Parity::Off,
    };
    let stop_bits = match stop_bits {
        2 => StopBits::Two,
        _ => StopBits::One,
    };
    let flow_control = if rtscts != 0 {
        FlowControl::Hardware
    } else if xon != 0 || xoff != 0 {
        FlowControl::Software
    } else {
        FlowControl::Off
    };
    let timeout_ms: u64 = if read_timeout_ms >= 0 {
        read_timeout_ms as u64
    } else {
        FALLBACK_TIMEOUT_MS
    };
    PortConfig { baud_rate: baud, data_bits, parity, stop_bits, flow_control, timeout_ms }
}

} // verus!
