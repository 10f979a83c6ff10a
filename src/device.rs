//! Radio devices, frequency slots and the single-byte device table of the wire format.
use vstd::prelude::*;

verus! {

/// The two frequency slots of a radio as the simulator addresses them.
#[derive(Clone, Copy, Debug, PartialEq, Eq, Structural)]
pub enum MSFSFreqOptions {
    Active,
    Standby,
}

/// The radios the panel can show or set.
#[derive(Clone, Copy, Debug, PartialEq, Eq, Structural)]
pub enum MSFSRadioDevices {
    COM1,
    COM2,
    NAV1,
    NAV2,
    DME,
    ADF,
    XPDR,
}

/// Which value of a device a command addresses: one of the two frequency
/// slots, or the transponder code.
#[derive(Clone, Copy, Debug, PartialEq, Eq, Structural)]
pub enum RadioOptions {
    Active,
    Standby,
    Code,
}

/// A device or a device/slot pair that has no meaning.
#[derive(Clone, Copy, Debug, PartialEq, Eq, Structural)]
pub enum MSFSCommunicatorError {
    InvalidDevice,
}

/// The wire byte of each device: COM1 0, COM2 1, NAV1 2, NAV2 3, DME 4,
/// ADF 5, XPDR 6.
pub open spec fn device_code(d: MSFSRadioDevices) -> u8 {
    match d {
        MSFSRadioDevices::COM1 => 0,
        MSFSRadioDevices::COM2 => 1,
        MSFSRadioDevices::NAV1 => 2,
        MSFSRadioDevices::NAV2 => 3,
        MSFSRadioDevices::DME => 4,
        MSFSRadioDevices::ADF => 5,
        MSFSRadioDevices::XPDR => 6,
    }
}

/// The device a wire byte names, if any: bytes `0..=6` name one, others none.
pub open spec fn device_of_code(b: u8) -> Option<MSFSRadioDevices> {
    if b == 0 {
        Some(MSFSRadioDevices::COM1)
    } else if b == 1 {
        Some(MSFSRadioDevices::COM2)
    } else if b == 2 {
        Some(MSFSRadioDevices::NAV1)
    } else if b == 3 {
        Some(MSFSRadioDevices::NAV2)
    } else if b == 4 {
        Some(MSFSRadioDevices::DME)
    } else if b == 5 {
        Some(MSFSRadioDevices::ADF)
    } else if b == 6 {
        Some(MSFSRadioDevices::XPDR)
    } else {
        None
    }
}

/// The wire byte of a device.
pub fn convert_from_device(device: MSFSRadioDevices) -> (r: u8)
    ensures
        r == device_code(device),
{
    match device {
        MSFSRadioDevices::COM1 => 0,
        MSFSRadioDevices::COM2 => 1,
        MSFSRadioDevices::NAV1 => 2,
        MSFSRadioDevices::NAV2 => 3,
        MSFSRadioDevices::DME => 4,
        MSFSRadioDevices::ADF => 5,
        MSFSRadioDevices::XPDR => 6,
    }
}

/// The device of a wire byte; `InvalidDevice` for a byte that names none.
pub fn convert_to_device(byte: u8) -> (r: Result<MSFSRadioDevices, MSFSCommunicatorError>)
    ensures
        match device_of_code(byte) {
            Some(d) => r == Ok::<MSFSRadioDevices, MSFSCommunicatorError>(d),
            None => r == Err::<MSFSRadioDevices, MSFSCommunicatorError>(
                MSFSCommunicatorError::InvalidDevice,
            ),
        },
{
    match byte {
        0 => Ok(MSFSRadioDevices::COM1),
        1 => Ok(MSFSRadioDevices::COM2),
        2 => Ok(MSFSRadioDevices::NAV1),
        3 => Ok(MSFSRadioDevices::NAV2),
        4 => Ok(MSFSRadioDevices::DME),
        5 => Ok(MSFSRadioDevices::ADF),
        6 => Ok(MSFSRadioDevices::XPDR),
        _ => Err(MSFSCommunicatorError::InvalidDevice),
    }
}

/// The device table is a bijection between the devices and the bytes that
/// name one: decoding a device's byte gives the device, and encoding the
/// device of a valid byte gives the byte.
pub proof fn lemma_device_round_trip(d: MSFSRadioDevices, b: u8)
    ensures
        device_of_code(device_code(d)) == Some(d),
        device_of_code(b) is Some ==> device_code(device_of_code(b).unwrap()) == b,
{
}

} // verus!
