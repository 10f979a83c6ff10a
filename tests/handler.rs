use radio_bridge::device::{
    convert_from_device, convert_to_device, MSFSCommunicatorError, MSFSFreqOptions,
    MSFSRadioDevices, RadioOptions,
};
use radio_bridge::freq::{FreqHandler, FrequencySnapshot, Packet, ProtocolError, SetCommand};
use radio_bridge::sim_events::{SimEventIds, SimTransmission};

const ALL_DEVICES: [MSFSRadioDevices; 7] = [
    MSFSRadioDevices::COM1,
    MSFSRadioDevices::COM2,
    MSFSRadioDevices::NAV1,
    MSFSRadioDevices::NAV2,
    MSFSRadioDevices::DME,
    MSFSRadioDevices::ADF,
    MSFSRadioDevices::XPDR,
];

#[test]
fn device_table_values() {
    let codes: Vec<u8> = ALL_DEVICES.iter().map(|d| convert_from_device(*d)).collect();
    assert_eq!(codes, vec![0, 1, 2, 3, 4, 5, 6]);
}

#[test]
fn device_round_trip_every_device() {
    for d in ALL_DEVICES {
        assert_eq!(convert_to_device(convert_from_device(d)).unwrap(), d);
    }
}

#[test]
fn device_round_trip_every_byte() {
    for b in 0..=255u8 {
        match convert_to_device(b) {
            Ok(d) => assert_eq!(convert_from_device(d), b),
            Err(e) => {
                assert!(b > 6);
                assert!(matches!(e, MSFSCommunicatorError::InvalidDevice));
            }
        }
    }
}

fn snapshot(device: MSFSRadioDevices, active: Option<u32>, standby: Option<u32>) -> FrequencySnapshot {
    FrequencySnapshot { device, active_khz: active, standby_khz: standby }
}

#[test]
fn poll_com1_builds_packet() {
    let h = FreqHandler::new();
    let out = h
        .check_for_freq_updates(Some(snapshot(MSFSRadioDevices::COM1, Some(118_500), Some(121_900))))
        .unwrap()
        .unwrap();
    assert_eq!(out.len(), 1);
    assert_eq!(out[0].id, 1);
    assert_eq!(out[0].payload, vec![0, 0x00, 0x01, 0xdc, 0x2c, 0x00, 0x01, 0xce, 0xe4]);
}

#[test]
fn poll_rounds_each_slot() {
    let h = FreqHandler::new();
    let out = h
        .check_for_freq_updates(Some(snapshot(MSFSRadioDevices::NAV2, Some(110_502), Some(113_898))))
        .unwrap()
        .unwrap();
    // standby 113900 = 0x0001bcec, active 110500 = 0x0001afa4
    assert_eq!(out[0].payload, vec![3, 0x00, 0x01, 0xbc, 0xec, 0x00, 0x01, 0xaf, 0xa4]);
}

#[test]
fn poll_transponder_sends_nothing() {
    let h = FreqHandler::new();
    let out = h.check_for_freq_updates(Some(snapshot(MSFSRadioDevices::XPDR, Some(1200), Some(0))));
    assert!(matches!(out, Ok(None)));
    let out = h.check_for_freq_updates(Some(snapshot(MSFSRadioDevices::XPDR, None, None)));
    assert!(matches!(out, Ok(None)));
}

#[test]
fn poll_without_snapshot_sends_nothing() {
    let h = FreqHandler::new();
    assert!(matches!(h.check_for_freq_updates(None), Ok(None)));
}

#[test]
fn poll_missing_slot_is_invariant_violation() {
    let h = FreqHandler::new();
    let out = h.check_for_freq_updates(Some(snapshot(MSFSRadioDevices::COM2, Some(118_500), None)));
    assert!(matches!(out, Err(ProtocolError::InvariantViolation)));
    let out = h.check_for_freq_updates(Some(snapshot(MSFSRadioDevices::COM2, None, Some(118_500))));
    assert!(matches!(out, Err(ProtocolError::InvariantViolation)));
}

#[test]
fn handle_transponder_sets_bcd_code() {
    let h = FreqHandler::new();
    let p = Packet::new(1, vec![6, 0, 0, 0, 0, 0x00, 0x00, 0x04, 0xb0]);
    let cmds = h.handle_packet(&p).unwrap();
    assert_eq!(
        cmds,
        vec![SetCommand { device: MSFSRadioDevices::XPDR, option: RadioOptions::Code, value: 0x1200 }]
    );
}

#[test]
fn handle_com1_sets_active_then_standby() {
    let h = FreqHandler::new();
    let p = Packet::new(1, vec![0, 0, 0, 0, 121, 0, 0, 0, 118]);
    let cmds = h.handle_packet(&p).unwrap();
    assert_eq!(
        cmds,
        vec![
            SetCommand { device: MSFSRadioDevices::COM1, option: RadioOptions::Active, value: 118_000 },
            SetCommand { device: MSFSRadioDevices::COM1, option: RadioOptions::Standby, value: 121_000 },
        ]
    );
}

#[test]
fn handle_scales_without_overflow() {
    let h = FreqHandler::new();
    let p = Packet::new(1, vec![2, 0xff, 0xff, 0xff, 0xff, 0xff, 0xff, 0xff, 0xff]);
    let cmds = h.handle_packet(&p).unwrap();
    assert_eq!(cmds[0].value, 4_294_967_295_000);
    assert_eq!(cmds[1].value, 4_294_967_295_000);
}

#[test]
fn handle_short_payload_is_malformed() {
    let h = FreqHandler::new();
    let p = Packet::new(1, vec![0, 0, 0, 0, 121]);
    assert!(matches!(h.handle_packet(&p), Err(ProtocolError::MalformedPacket)));
    let p = Packet::new(1, vec![]);
    assert!(matches!(h.handle_packet(&p), Err(ProtocolError::MalformedPacket)));
}

#[test]
fn handle_unknown_device_byte() {
    let h = FreqHandler::new();
    let p = Packet::new(1, vec![7, 0, 0, 0, 121, 0, 0, 0, 118]);
    assert!(matches!(h.handle_packet(&p), Err(ProtocolError::UnknownDevice)));
}

#[test]
fn handle_ignores_bytes_after_ninth() {
    let h = FreqHandler::new();
    let p = Packet::new(1, vec![1, 0, 0, 0, 121, 0, 0, 0, 118, 42]);
    let cmds = h.handle_packet(&p).unwrap();
    assert_eq!(cmds.len(), 2);
    assert_eq!(cmds[0].device, MSFSRadioDevices::COM2);
}

#[test]
fn packet_id_is_one() {
    assert_eq!(FreqHandler::new().get_packet_id(), 1);
}

fn ids() -> SimEventIds {
    SimEventIds {
        event_com1_active_set: 10,
        event_com1_standby_set: 11,
        event_com2_active_set: 12,
        event_com2_standby_set: 13,
        event_nav1_active_set: 14,
        event_nav1_standby_set: 15,
        event_nav2_active_set: 16,
        event_nav2_standby_set: 17,
        event_xpndr_set: 18,
    }
}

#[test]
fn select_event_for_radio_slot() {
    let r = ids().select_event(MSFSRadioDevices::NAV1, MSFSFreqOptions::Standby, 110_500_000);
    assert_eq!(r.unwrap(), SimTransmission { event: 15, data: 110_500_000 });
}

#[test]
fn select_event_transponder_in_bcd() {
    let r = ids().select_event(MSFSRadioDevices::XPDR, MSFSFreqOptions::Active, 7000);
    assert_eq!(r.unwrap(), SimTransmission { event: 18, data: 0x7000 });
}

#[test]
fn select_event_without_event_is_invalid() {
    let r = ids().select_event(MSFSRadioDevices::DME, MSFSFreqOptions::Active, 1);
    assert!(matches!(r, Err(MSFSCommunicatorError::InvalidDevice)));
    let r = ids().select_event(MSFSRadioDevices::XPDR, MSFSFreqOptions::Standby, 1);
    assert!(matches!(r, Err(MSFSCommunicatorError::InvalidDevice)));
}

#[test]
fn select_event_keeps_low_word() {
    let r = ids().select_event(MSFSRadioDevices::COM1, MSFSFreqOptions::Active, 0x1_0000_0005);
    assert_eq!(r.unwrap().data, 5);
}

#[test]
fn command_event_passes_code_as_is() {
    let cmd = SetCommand { device: MSFSRadioDevices::XPDR, option: RadioOptions::Code, value: 0x1200 };
    assert_eq!(ids().command_event(cmd).unwrap(), SimTransmission { event: 18, data: 0x1200 });
    let cmd = SetCommand { device: MSFSRadioDevices::COM1, option: RadioOptions::Code, value: 1 };
    assert!(matches!(ids().command_event(cmd), Err(MSFSCommunicatorError::InvalidDevice)));
}

#[test]
fn command_event_for_frequency() {
    let cmd = SetCommand { device: MSFSRadioDevices::COM2, option: RadioOptions::Active, value: 118_000 };
    assert_eq!(ids().command_event(cmd).unwrap(), SimTransmission { event: 12, data: 118_000 });
}
