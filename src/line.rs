use vstd::prelude::*;

verus! {

// The serial crate's settings types are plain enums and a struct of public
// fields; they are declared with their variants and fields visible, so that
// contracts can name them.
#[verifier::external_type_specification]
pub struct ExBaudRate(serial::BaudRate);

#[verifier::external_type_specification]
pub struct ExCharSize(serial::CharSize);

#[verifier::external_type_specification]
pub struct ExParity(serial::Parity);

#[verifier::external_type_specification]
pub struct ExStopBits(serial::StopBits);

#[verifier::external_type_specification]
pub struct ExFlowControl(serial::FlowControl);

#[verifier::external_type_specification]
pub struct ExPortSettings(serial::PortSettings);

/// The `BaudRate` that stands for `speed`: a named variant for each standard
/// rate, `BaudOther` for every other speed.
pub open spec fn baud_rate_for(speed: usize) -> serial::BaudRate {
    match speed {
        110 => serial::BaudRate::Baud110,
        300 => serial::BaudRate::Baud300,
        600 => serial::BaudRate::Baud600,
        1200 => serial::BaudRate::Baud1200,
        2400 => serial::BaudRate::Baud2400,
        4800 => serial::BaudRate::Baud4800,
        9600 => serial::BaudRate::Baud9600,
        19200 => serial::BaudRate::Baud19200,
        38400 => serial::BaudRate::Baud38400,
        57600 => serial::BaudRate::Baud57600,
        115200 => serial::BaudRate::Baud115200,
        n => serial::BaudRate::BaudOther(n),
    }
}

/// The speed, in baud, that a `BaudRate` names (as `BaudRate::speed` gives it).
pub open spec fn speed_of(b: serial::BaudRate) -> usize {
    match b {
        serial::BaudRate::Baud110 => 110,
        serial::BaudRate::Baud300 => 300,
        serial::BaudRate::Baud600 => 600,
        serial::BaudRate::Baud1200 => 1200,
        serial::BaudRate::Baud2400 => 2400,
        serial::BaudRate::Baud4800 => 4800,
        serial::BaudRate::Baud9600 => 9600,
        serial::BaudRate::Baud19200 => 19200,
        serial::BaudRate::Baud38400 => 38400,
        serial::BaudRate::Baud57600 => 57600,
        serial::BaudRate::Baud115200 => 115200,
        serial::BaudRate::BaudOther(n) => n,
    }
}

/// Relies on `serial::BaudRate::from_speed`: a match from the speed to the
/// variant that names it.
pub assume_specification[ serial::BaudRate::from_speed ](speed: usize) -> (r: serial::BaudRate)
    ensures
        r == baud_rate_for(speed),
;

/// The framing this monitor always uses: 8 data bits, no parity, one stop
/// bit, no flow control, at the given baud rate.
pub open spec fn monitor_framing(baud: serial::BaudRate) -> serial::PortSettings {
    serial::PortSettings {
        baud_rate: baud,
        char_size: serial::CharSize::Bits8,
        parity: serial::Parity::ParityNone,
        stop_bits: serial::StopBits::Stop1,
        flow_control: serial::FlowControl::FlowNone,
    }
}

/// The settings that an opened device is configured with.
pub fn port_settings(baud: serial::BaudRate) -> (r: serial::PortSettings)
    ensures
        r == monitor_framing(baud),
{
    serial::PortSettings {
        baud_rate: baud,
        char_size: serial::CharSize::Bits8,
        parity: serial::Parity::ParityNone,
        stop_bits: serial::StopBits::Stop1,
        flow_control: serial::FlowControl::FlowNone,
    }
}

} // verus!
