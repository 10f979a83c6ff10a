//! The frequency handler: what to send on each poll tick, and which commands
//! an inbound wire packet asks of the simulator.
use vstd::prelude::*;
use crate::codec::{
    be_bytes, be_value, bcd_of, pack_u32_be, rounded, round_to_nearest_power_of_5, unpack_u32_be,
    u32_to_bcd16,
};
use crate::device::{
    MSFSRadioDevices, RadioOptions, convert_from_device, convert_to_device, device_code,
    device_of_code,
};

verus! {

/// Message type of the frequency packets on the bus.
pub const FREQ_PACKET_ID: u8 = 1;

/// Length of a frequency payload: device byte, standby and active values.
pub const FREQ_PAYLOAD_LEN: usize = 9;

/// A framed message of the bus: its message type and its payload bytes.
#[derive(Clone, Debug)]
pub struct Packet {
    pub id: u8,
    pub payload: Vec<u8>,
}

impl Packet {
    pub fn new(id: u8, payload: Vec<u8>) -> (r: Packet)
        ensures
            r.id == id,
            r.payload@ == payload@,
    {
        Packet { id, payload }
    }
}

/// One reading of a radio from the simulator, with each frequency slot
/// already converted from MHz to kHz (`None` where the reading lacks it).
#[derive(Clone, Copy, Debug, PartialEq, Eq, Structural)]
pub struct FrequencySnapshot {
    pub device: MSFSRadioDevices,
    pub active_khz: Option<u32>,
    pub standby_khz: Option<u32>,
}

/// A write to the simulator: set `option` of `device` to `value`.
#[derive(Clone, Copy, Debug, PartialEq, Eq, Structural)]
pub struct SetCommand {
    pub device: MSFSRadioDevices,
    pub option: RadioOptions,
    pub value: u64,
}

/// Why a poll or a packet was not handled.
#[derive(Clone, Copy, Debug, PartialEq, Eq, Structural)]
pub enum ProtocolError {
    /// The payload is shorter than nine bytes.
    MalformedPacket,
    /// The device byte names no device.
    UnknownDevice,
    /// The simulator refused a write.
    SourceRejected,
    /// A snapshot of a radio lacks its active or its standby frequency.
    InvariantViolation,
}

/// The nine-byte payload: device byte, standby then active, big-endian.
pub open spec fn wire_payload(device: MSFSRadioDevices, standby: u32, active: u32) -> Seq<u8> {
    seq![device_code(device)] + be_bytes(standby) + be_bytes(active)
}

/// What a poll tick sends for a snapshot: nothing for no snapshot or for the
/// transponder; otherwise the payload of both slots, each rounded to a
/// multiple of five; an invariant violation where a slot is missing.
pub open spec fn poll_result(update: Option<FrequencySnapshot>) -> Result<
    Option<Seq<u8>>,
    ProtocolError,
> {
    match update {
        None => Ok(None),
        Some(s) => {
            if s.device == MSFSRadioDevices::XPDR {
                Ok(None)
            } else {
                match (s.active_khz, s.standby_khz) {
                    (Some(a), Some(st)) => Ok(
                        Some(wire_payload(s.device, rounded(st, 1) as u32, rounded(a, 1) as u32)),
                    ),
                    _ => Err(ProtocolError::InvariantViolation),
                }
            }
        },
    }
}

/// The commands an inbound payload asks for. The transponder gets its code,
/// the active value in BCD; any other radio gets its active then its standby
/// slot, each raw value scaled by 1000.
pub open spec fn packet_commands(p: Seq<u8>) -> Result<Seq<SetCommand>, ProtocolError> {
    if p.len() < 9 {
        Err(ProtocolError::MalformedPacket)
    } else {
        match device_of_code(p[0]) {
            None => Err(ProtocolError::UnknownDevice),
            Some(d) => {
                let standby = be_value(p.subrange(1, 5));
                let active = be_value(p.subrange(5, 9));
                if d == MSFSRadioDevices::XPDR {
                    Ok(
                        seq![
                            SetCommand {
                                device: MSFSRadioDevices::XPDR,
                                option: RadioOptions::Code,
                                value: bcd_of(active as nat, 8) as u64,
                            },
                        ],
                    )
                } else {
                    Ok(
                        seq![
                            SetCommand {
                                device: d,
                                option: RadioOptions::Active,
                                value: (active * 1000) as u64,
                            },
                            SetCommand {
                                device: d,
                                option: RadioOptions::Standby,
                                value: (standby * 1000) as u64,
                            },
                        ],
                    )
                }
            },
        }
    }
}

/// Handles frequency packets: turns simulator snapshots into outbound
/// packets and inbound packets into simulator commands.
pub struct FreqHandler {}

impl FreqHandler {
    pub fn new() -> (r: FreqHandler) {
        FreqHandler {  }
    }

    /// The packets to send for the latest snapshot of the simulator, if any.
    /// The transponder is never reported. A radio snapshot that lacks a slot
    /// breaks the simulator side's contract: it is returned as
    /// `InvariantViolation` and nothing is sent for it.
    pub fn check_for_freq_updates(&self, update: Option<FrequencySnapshot>) -> (r: Result<
        Option<Vec<Packet>>,
        ProtocolError,
    >)
        ensures
            match (r, poll_result(update)) {
                (Ok(None), Ok(None)) => true,
                (Ok(Some(ps)), Ok(Some(payload))) => ps@.len() == 1 && ps@[0].id == FREQ_PACKET_ID
                    && ps@[0].payload@ == payload,
                (Err(e), Err(f)) => e == f,
                _ => false,
            },
    {
        let s = match update {
            None => return Ok(None),
            Some(s) => s,
        };
        if s.device == MSFSRadioDevices::XPDR {
            return Ok(None);
        }
        let (active, standby) = match (s.active_khz, s.standby_khz) {
            (Some(a), Some(st)) => (a, st),
            _ => return Err(ProtocolError::InvariantViolation),
        };
        let active_freq = round_to_nearest_power_of_5(active, 1);
        let standby_freq = round_to_nearest_power_of_5(standby, 1);
        let sb = pack_u32_be(standby_freq);
        let ab = pack_u32_be(active_freq);
        let mut payload: Vec<u8> = Vec::new();
        payload.push(convert_from_device(s.device));
        payload.push(sb[0]);
        payload.push(sb[1]);
        payload.push(sb[2]);
        payload.push(sb[3]);
        payload.push(ab[0]);
        payload.push(ab[1]);
        payload.push(ab[2]);
        payload.push(ab[3]);
        assert(payload@ =~= wire_payload(s.device, standby_freq, active_freq));
        let mut packets: Vec<Packet> = Vec::new();
        packets.push(Packet::new(FREQ_PACKET_ID, payload));
        Ok(Some(packets))
    }

    /// The commands that an inbound frequency packet asks of the simulator,
    /// in the order they are to be issued.
    pub fn handle_packet(&self, packet: &Packet) -> (r: Result<Vec<SetCommand>, ProtocolError>)
        ensures
            match (r, packet_commands(packet.payload@)) {
                (Ok(cs), Ok(want)) => cs@ == want,
                (Err(e), Err(f)) => e == f,
                _ => false,
            },
    {
        let p = &packet.payload;
        if p.len() < FREQ_PAYLOAD_LEN {
            return Err(ProtocolError::MalformedPacket);
        }
        let device = match convert_to_device(p[0]) {
            Ok(d) => d,
            Err(_) => return Err(ProtocolError::UnknownDevice),
        };
        let sbytes = [p[1], p[2], p[3], p[4]];
        let abytes = [p[5], p[6], p[7], p[8]];
        assert(sbytes@ =~= p@.subrange(1, 5));
        assert(abytes@ =~= p@.subrange(5, 9));
        let standby_freq = unpack_u32_be(&sbytes);
        let active_freq = unpack_u32_be(&abytes);
        let mut commands: Vec<SetCommand> = Vec::new();
        if device == MSFSRadioDevices::XPDR {
            let code = u32_to_bcd16(active_freq);
            commands.push(
                SetCommand { device: MSFSRadioDevices::XPDR, option: RadioOptions::Code, value: code as u64 },
            );
        } else {
            commands.push(
                SetCommand {
                    device,
                    option: RadioOptions::Active,
                    value: active_freq as u64 * 1000,
                },
            );
            commands.push(
                SetCommand {
                    device,
                    option: RadioOptions::Standby,
                    value: standby_freq as u64 * 1000,
                },
            );
        }
        assert(commands@ =~= packet_commands(p@)->Ok_0);
        Ok(commands)
    }

    /// The message type this handler takes.
    pub fn get_packet_id(&self) -> (r: u8)
        ensures
            r == FREQ_PACKET_ID,
    {
        FREQ_PACKET_ID
    }
}

} // verus!
