use mavlink::common::{MavAutopilot, MavMessage, MavModeFlag, MavState, MavType};
use rns_mavlink::heartbeat::heartbeat;
use rns_mavlink::parser::{MavHeader, MavlinkVersion};
use rns_mavlink::MavlinkParser;

#[test]
fn first_heartbeat_has_these_bytes() {
    let mut sequence: u8 = 0;
    let bytes = heartbeat(&mut sequence).unwrap();
    assert_eq!(sequence, 1);
    assert_eq!(bytes, vec![254, 9, 1, 1, 1, 0, 0, 0, 0, 0, 2, 3, 81, 3, 3, 146, 47]);
}

#[test]
fn heartbeat_numbers_start_over() {
    let mut sequence: u8 = 254;
    assert_eq!(heartbeat(&mut sequence).unwrap()[2], 255);
    let bytes = heartbeat(&mut sequence).unwrap();
    assert_eq!(bytes, vec![254, 9, 0, 1, 1, 0, 0, 0, 0, 0, 2, 3, 81, 3, 3, 120, 81]);
    assert_eq!(sequence, 0);
}

#[test]
fn heartbeat_is_read_back_by_the_parser() {
    let mut sequence: u8 = 41;
    let bytes = heartbeat(&mut sequence).unwrap();
    let frames = MavlinkParser::new().parse(&bytes);
    assert_eq!(frames.len(), 1);
    assert_eq!(frames[0].protocol_version, MavlinkVersion::V1);
    assert_eq!(
        frames[0].header,
        MavHeader { system_id: 1, component_id: 1, sequence: 42 }
    );
    match &frames[0].msg {
        MavMessage::HEARTBEAT(data) => {
            assert_eq!(data.custom_mode, 0);
            assert_eq!(data.mavtype, MavType::MAV_TYPE_QUADROTOR);
            assert_eq!(data.autopilot, MavAutopilot::MAV_AUTOPILOT_ARDUPILOTMEGA);
            assert_eq!(
                data.base_mode,
                MavModeFlag::MAV_MODE_FLAG_MANUAL_INPUT_ENABLED
                    | MavModeFlag::MAV_MODE_FLAG_STABILIZE_ENABLED
                    | MavModeFlag::MAV_MODE_FLAG_CUSTOM_MODE_ENABLED
            );
            assert_eq!(data.system_status, MavState::MAV_STATE_STANDBY);
            assert_eq!(data.mavlink_version, 3);
        }
        other => panic!("{other:?}"),
    }
}

#[test]
fn checksum_is_x25_of_the_frame_and_the_extra_byte() {
    let mut sequence: u8 = 0;
    for _ in 0..256 {
        let bytes = heartbeat(&mut sequence).unwrap();
        let mut crc: u16 = 0xffff;
        for byte in bytes[1..15].iter().chain([50].iter()) {
            crc ^= *byte as u16;
            for _ in 0..8 {
                crc = if crc & 1 == 1 { (crc >> 1) ^ 0x8408 } else { crc >> 1 };
            }
        }
        assert_eq!(bytes[15..], crc.to_le_bytes());
    }
}

#[test]
fn heartbeats_differ_in_number_and_checksum_only() {
    let mut sequence: u8 = 7;
    let one = heartbeat(&mut sequence).unwrap();
    let other = heartbeat(&mut sequence).unwrap();
    for i in (0..15).filter(|i| *i != 2) {
        assert_eq!(one[i], other[i]);
    }
    assert_eq!((one[2], other[2]), (8, 9));
}

#[test]
fn what_follows_a_heartbeat_is_read_on_its_own() {
    let mut sequence: u8 = 99;
    let mut bytes = heartbeat(&mut sequence).unwrap();
    bytes.extend(heartbeat(&mut sequence).unwrap());
    bytes.extend([254, 9]);
    let mut parser = MavlinkParser::new();
    let numbers: Vec<u8> = parser.parse(&bytes).iter().map(|frame| frame.header.sequence).collect();
    assert_eq!(numbers, vec![100, 101]);
    assert!(parser.error.is_none());
}
