//! Which simulator event carries a write, and the value it carries.
use vstd::prelude::*;
use crate::codec::{bcd_of, u64_to_bcd16};
use crate::device::{MSFSCommunicatorError, MSFSFreqOptions, MSFSRadioDevices, RadioOptions};
use crate::freq::SetCommand;

verus! {

/// The instance-specific ids of the simulator's set events, as mapped when
/// the connection opened.
#[derive(Clone, Copy, Debug, PartialEq, Eq, Structural)]
pub struct SimEventIds {
    pub event_com1_active_set: u32,
    pub event_com1_standby_set: u32,
    pub event_com2_active_set: u32,
    pub event_com2_standby_set: u32,
    pub event_nav1_active_set: u32,
    pub event_nav1_standby_set: u32,
    pub event_nav2_active_set: u32,
    pub event_nav2_standby_set: u32,
    pub event_xpndr_set: u32,
}

/// A client event to transmit, with its 32-bit data word.
#[derive(Clone, Copy, Debug, PartialEq, Eq, Structural)]
pub struct SimTransmission {
    pub event: u32,
    pub data: u32,
}

/// The low 32 bits of `v`, as the event's data word keeps them.
pub open spec fn low_word(v: u64) -> u32 {
    (v % 0x1_0000_0000) as u32
}

/// The event id of a device and slot; `None` for a pair with no event
/// (DME, ADF, and the transponder's standby slot).
pub open spec fn event_of(ids: SimEventIds, device: MSFSRadioDevices, option: MSFSFreqOptions) -> Option<u32> {
    match (device, option) {
        (MSFSRadioDevices::COM1, MSFSFreqOptions::Active) => Some(ids.event_com1_active_set),
        (MSFSRadioDevices::COM1, MSFSFreqOptions::Standby) => Some(ids.event_com1_standby_set),
        (MSFSRadioDevices::COM2, MSFSFreqOptions::Active) => Some(ids.event_com2_active_set),
        (MSFSRadioDevices::COM2, MSFSFreqOptions::Standby) => Some(ids.event_com2_standby_set),
        (MSFSRadioDevices::NAV1, MSFSFreqOptions::Active) => Some(ids.event_nav1_active_set),
        (MSFSRadioDevices::NAV1, MSFSFreqOptions::Standby) => Some(ids.event_nav1_standby_set),
        (MSFSRadioDevices::NAV2, MSFSFreqOptions::Active) => Some(ids.event_nav2_active_set),
        (MSFSRadioDevices::NAV2, MSFSFreqOptions::Standby) => Some(ids.event_nav2_standby_set),
        (MSFSRadioDevices::XPDR, MSFSFreqOptions::Active) => Some(ids.event_xpndr_set),
        _ => None,
    }
}

fn truncate_word(v: u64) -> (r: u32)
    ensures
        r == low_word(v),
{
    assert(v as u32 == (v % 0x1_0000_0000) as u32) by (bit_vector);
    #[verifier::truncate]
    (v as u32)
}

impl SimEventIds {
    /// The transmission that sets `option` of `device` to `freq` (in Hz); the
    /// transponder's value is a decimal code sent in BCD.
    pub fn select_event(&self, device: MSFSRadioDevices, option: MSFSFreqOptions, freq: u64) -> (r: Result<
        SimTransmission,
        MSFSCommunicatorError,
    >)
        ensures
            r == self.select_event_spec(device, option, freq),
    {
        let event: u32 = match (device, option) {
            (MSFSRadioDevices::COM1, MSFSFreqOptions::Active) => self.event_com1_active_set,
            (MSFSRadioDevices::COM1, MSFSFreqOptions::Standby) => self.event_com1_standby_set,
            (MSFSRadioDevices::COM2, MSFSFreqOptions::Active) => self.event_com2_active_set,
            (MSFSRadioDevices::COM2, MSFSFreqOptions::Standby) => self.event_com2_standby_set,
            (MSFSRadioDevices::NAV1, MSFSFreqOptions::Active) => self.event_nav1_active_set,
            (MSFSRadioDevices::NAV1, MSFSFreqOptions::Standby) => self.event_nav1_standby_set,
            (MSFSRadioDevices::NAV2, MSFSFreqOptions::Active) => self.event_nav2_active_set,
            (MSFSRadioDevices::NAV2, MSFSFreqOptions::Standby) => self.event_nav2_standby_set,
            (MSFSRadioDevices::XPDR, MSFSFreqOptions::Active) => self.event_xpndr_set,
            _ => return Err(MSFSCommunicatorError::InvalidDevice),
        };
        let value: u64 = if device == MSFSRadioDevices::XPDR {
            u64_to_bcd16(freq)
        } else {
            freq
        };
        Ok(SimTransmission { event, data: truncate_word(value) })
    }

    /// The transmission that carries a handler command. A transponder code is
    /// already in BCD and is sent as it is; a code for any other device has
    /// no event.
    pub fn command_event(&self, cmd: SetCommand) -> (r: Result<SimTransmission, MSFSCommunicatorError>)
        ensures
            match cmd.option {
                RadioOptions::Code => r == if cmd.device == MSFSRadioDevices::XPDR {
                    Ok::<SimTransmission, MSFSCommunicatorError>(
                        SimTransmission { event: self.event_xpndr_set, data: low_word(cmd.value) },
                    )
                } else {
                    Err::<SimTransmission, MSFSCommunicatorError>(MSFSCommunicatorError::InvalidDevice)
                },
                RadioOptions::Active => r == self.select_event_spec(cmd.device, MSFSFreqOptions::Active, cmd.value),
                RadioOptions::Standby => r == self.select_event_spec(cmd.device, MSFSFreqOptions::Standby, cmd.value),
            },
    {
        match cmd.option {
            RadioOptions::Code => {
                if cmd.device == MSFSRadioDevices::XPDR {
                    Ok(SimTransmission { event: self.event_xpndr_set, data: truncate_word(cmd.value) })
                } else {
                    Err(MSFSCommunicatorError::InvalidDevice)
                }
            },
            RadioOptions::Active => self.select_event(cmd.device, MSFSFreqOptions::Active, cmd.value),
            RadioOptions::Standby => self.select_event(cmd.device, MSFSFreqOptions::Standby, cmd.value),
        }
    }

    /// What `select_event` returns.
    pub open spec fn select_event_spec(self, device: MSFSRadioDevices, option: MSFSFreqOptions, freq: u64) -> Result<
        SimTransmission,
        MSFSCommunicatorError,
    > {
        match event_of(self, device, option) {
            None => Err(MSFSCommunicatorError::InvalidDevice),
            Some(ev) => Ok(
                SimTransmission {
                    event: ev,
                    data: if device == MSFSRadioDevices::XPDR {
                        low_word(bcd_of(freq as nat, 16) as u64)
                    } else {
                        low_word(freq)
                    },
                },
            ),
        }
    }
}

} // verus!
