use mavlink::common::{MavMessage, HEARTBEAT_DATA};
use mavlink::error::ParserError;
use rns_mavlink::parser::{MavHeader, MavlinkVersion, ParseError, RawMessage};
use rns_mavlink::MavlinkParser;

const BEAT_173: [u8; 21] =
    [253, 9, 0, 0, 173, 1, 1, 0, 0, 0, 0, 0, 0, 0, 2, 3, 81, 3, 3, 64, 11];

/// A frame with a valid checksum and a message id that the dialect lacks.
const UNKNOWN_ID: [u8; 13] = [253, 1, 0, 0, 7, 1, 1, 255, 255, 127, 5, 101, 38];

/// A heartbeat with a valid checksum and a vehicle type that does not exist.
const BAD_VEHICLE: [u8; 21] =
    [253, 9, 0, 0, 8, 1, 1, 0, 0, 0, 0, 0, 0, 0, 200, 3, 81, 3, 3, 91, 236];

fn sequences(parser: &mut MavlinkParser, bytes: &[u8]) -> Vec<u8> {
    parser.parse(bytes).iter().map(|frame| frame.header.sequence).collect()
}

#[test]
fn parse_mavlink() {
    let bytes1: [u8; 128] = [
        3, 81, 3, 3, 80, 133, 253, 9, 0, 0, 173, 1, 1, 0, 0, 0, 0, 0, 0, 0,
        2, 3, 81, 3, 3, 64, 11, 253, 9, 0, 0, 174, 1, 1, 0, 0, 0, 0, 0, 0,
        0, 2, 3, 81, 3, 3, 97, 145, 253, 9, 0, 0, 175, 1, 1, 0, 0, 0, 0, 0,
        0, 0, 2, 3, 81, 3, 3, 113, 31, 253, 9, 0, 0, 176, 1, 1, 0, 0, 0, 0,
        0, 0, 0, 2, 3, 81, 3, 3, 126, 92, 253, 9, 0, 0, 177, 1, 1, 0, 0, 0,
        0, 0, 0, 0, 2, 3, 81, 3, 3, 110, 210, 253, 9, 0, 0, 178, 1, 1, 0, 0,
        0, 0, 0, 0, 0, 2, 3, 81,
    ];
    let bytes2: [u8; 256] = [
        3, 3, 79, 72, 253, 13, 0, 0, 179, 1, 1, 111, 0, 0, 0, 0, 0, 0, 0, 0,
        0, 0, 89, 175, 33, 67, 37, 199, 217, 253, 9, 0, 0, 180, 1, 1, 0, 0, 0, 0,
        0, 0, 0, 2, 3, 81, 3, 3, 28, 116, 253, 9, 0, 0, 181, 1, 1, 0, 0, 0,
        0, 0, 0, 0, 2, 3, 81, 3, 3, 12, 250, 253, 9, 0, 0, 182, 1, 1, 0, 0,
        0, 0, 0, 0, 0, 2, 3, 81, 3, 3, 45, 96, 253, 9, 0, 0, 183, 1, 1, 0,
        0, 0, 0, 0, 0, 0, 2, 3, 81, 3, 3, 61, 238, 253, 9, 0, 0, 184, 1, 1,
        0, 0, 0, 0, 0, 0, 0, 2, 3, 81, 3, 3, 186, 12, 253, 9, 0, 0, 185, 1,
        1, 0, 0, 0, 0, 0, 0, 0, 2, 3, 81, 3, 3, 170, 130, 253, 9, 0, 0, 186,
        1, 1, 0, 0, 0, 0, 0, 0, 0, 2, 3, 81, 3, 3, 139, 24, 253, 9, 0, 0,
        187, 1, 1, 0, 0, 0, 0, 0, 0, 0, 2, 3, 81, 3, 3, 155, 150, 253, 9, 0,
        0, 188, 1, 1, 0, 0, 0, 0, 0, 0, 0, 2, 3, 81, 3, 3, 216, 36, 253, 9,
        0, 0, 189, 1, 1, 0, 0, 0, 0, 0, 0, 0, 2, 3, 81, 3, 3, 200, 170, 253,
        13, 0, 0, 190, 1, 1, 111, 0, 0, 0, 0, 0, 0, 0, 0, 0,
    ];
    let mut parser = MavlinkParser::new();
    let mut seqnums = vec![];
    for frame in parser.parse(&bytes1[..]) {
        println!("FRAME1: {frame:?}");
        seqnums.push(frame.header.sequence);
    }
    for frame in parser.parse(&bytes2[..]) {
        println!("FRAME2: {frame:?}");
        seqnums.push(frame.header.sequence);
    }
    assert_eq!(seqnums, (173..190).collect::<Vec<_>>());
}

#[test]
fn frame_has_the_header_and_message_of_its_bytes() {
    let mut parser = MavlinkParser::new();
    let frames = parser.parse(&BEAT_173);
    assert_eq!(frames.len(), 1);
    assert_eq!(frames[0].protocol_version, MavlinkVersion::V2);
    assert_eq!(
        frames[0].header,
        MavHeader { system_id: 1, component_id: 1, sequence: 173 }
    );
    match &frames[0].msg {
        MavMessage::HEARTBEAT(data) => {
            assert_eq!(data.custom_mode, 0);
            assert_eq!(data.base_mode.bits(), 81);
            assert_eq!(data.mavlink_version, 3);
        }
        other => panic!("{other:?}"),
    }
    assert!(parser.buffer.is_empty());
}

#[test]
fn every_cut_of_the_stream_gives_the_same_frames() {
    let mut stream = vec![1, 2, 253, 3];
    stream.extend_from_slice(&BEAT_173);
    stream.extend_from_slice(&[254, 9]);
    stream.extend_from_slice(&BEAT_173);
    stream.extend_from_slice(&[0; 300]);
    let whole = sequences(&mut MavlinkParser::new(), &stream);
    assert_eq!(whole, vec![173, 173]);
    for cut in 0..stream.len() {
        let mut parser = MavlinkParser::new();
        let mut pieces = sequences(&mut parser, &stream[..cut]);
        pieces.extend(sequences(&mut parser, &stream[cut..]));
        assert_eq!(pieces, whole, "cut at {cut}");
    }
}

#[test]
fn byte_by_byte_gives_the_frame_with_its_last_byte() {
    let mut parser = MavlinkParser::new();
    for byte in &BEAT_173[..20] {
        assert!(parser.parse(&[*byte]).is_empty());
    }
    assert_eq!(sequences(&mut parser, &BEAT_173[20..]), vec![173]);
    assert!(parser.parse(&[]).is_empty());
}

#[test]
fn undecodable_frame_is_dropped_and_the_rest_waits_for_the_next_run() {
    for bad in [&UNKNOWN_ID[..], &BAD_VEHICLE[..]] {
        let mut stream = BEAT_173.to_vec();
        stream.extend_from_slice(bad);
        stream.extend_from_slice(&BEAT_173);
        let mut parser = MavlinkParser::new();
        assert_eq!(sequences(&mut parser, &stream), vec![173]);
        assert_eq!(sequences(&mut parser, &[]), vec![173]);
        assert!(sequences(&mut parser, &[]).is_empty());
    }
}

#[test]
fn wrong_checksum_is_skipped() {
    let mut stream = BEAT_173.to_vec();
    stream[20] ^= 1;
    stream.extend_from_slice(&BEAT_173);
    assert_eq!(sequences(&mut MavlinkParser::new(), &stream), vec![173]);
}

#[test]
fn frames_already_collected_come_first() {
    let mut parser = MavlinkParser::new();
    let kept = MavlinkParser::new().parse(&BEAT_173);
    parser.buffer = kept;
    let mut beat: Vec<u8> = BEAT_173.to_vec();
    beat[20] ^= 1;
    assert_eq!(sequences(&mut parser, &beat), vec![173]);
    assert_eq!(sequences(&mut parser, &BEAT_173), vec![173]);
}

#[test]
fn frame_of_a_message_that_was_decoded_or_not() {
    let raw = RawMessage {
        version: MavlinkVersion::V1,
        header: MavHeader { system_id: 7, component_id: 8, sequence: 9 },
        message_id: 0,
        payload: vec![],
    };
    let message = MavMessage::HEARTBEAT(HEARTBEAT_DATA::default());
    let frame = MavlinkParser::frame_of(&raw, Ok(message)).unwrap();
    assert_eq!(frame.protocol_version, MavlinkVersion::V1);
    assert_eq!(frame.header, raw.header);
    assert!(matches!(frame.msg, MavMessage::HEARTBEAT(_)));
    assert!(matches!(
        MavlinkParser::frame_of(&raw, Err(ParserError::UnknownMessage { id: 1 })),
        Err(ParserError::UnknownMessage { id: 1 })
    ));
}

#[test]
fn error_of_the_last_run_is_kept() {
    let mut parser = MavlinkParser::new();
    assert!(parser.error.is_none());
    parser.parse(&BEAT_173[..5]);
    assert!(parser.error.is_none());
    parser.parse(&BEAT_173[5..]);
    assert!(parser.error.is_none());
    parser.parse(&UNKNOWN_ID);
    assert!(matches!(
        parser.error,
        Some(ParseError::Decode(ParserError::UnknownMessage { id: 0x7fffff }))
    ));
    parser.parse(&BAD_VEHICLE);
    match &parser.error {
        Some(ParseError::Decode(ParserError::InvalidEnum { value, .. })) => assert_eq!(*value, 200),
        other => panic!("{other:?}"),
    }
    parser.parse(&[]);
    assert!(parser.error.is_none());
}

/// The shortest frame: version 1, no payload, of a message that the dialect
/// lacks.
const SHORTEST: [u8; 8] = [254, 0, 9, 1, 1, 200, 0, 0];

#[test]
fn frames_number_at_most_an_eighth_of_the_bytes() {
    let mut frame = SHORTEST.to_vec();
    let crc = x25(&[0, 9, 1, 1, 200, 0]);
    frame[6] = crc as u8;
    frame[7] = (crc >> 8) as u8;
    let mut parser = MavlinkParser::new();
    assert!(parser.parse(&frame[..7]).is_empty());
    assert!(parser.error.is_none());
    assert!(parser.parse(&frame[7..]).is_empty());
    assert!(matches!(parser.error, Some(ParseError::Decode(_))));
    let stream = BEAT_173.repeat(10);
    let mut total = 0;
    for piece in stream.chunks(13) {
        total += parser.parse(piece).len();
    }
    assert_eq!(total, 10);
    assert!(8 * total <= stream.len());
    assert!(MavlinkParser::new().parse(&[]).is_empty());
}

fn x25(bytes: &[u8]) -> u16 {
    let mut crc: u16 = 0xffff;
    for byte in bytes {
        crc ^= *byte as u16;
        for _ in 0..8 {
            crc = if crc & 1 == 1 { (crc >> 1) ^ 0x8408 } else { crc >> 1 };
        }
    }
    crc
}

#[test]
fn any_number_of_pieces_gives_the_frames_of_the_stream() {
    let mut stream = vec![253, 254, 0];
    for _ in 0..4 {
        stream.extend_from_slice(&BEAT_173);
        stream.push(254);
    }
    stream.extend_from_slice(&[0; 300]);
    let whole = sequences(&mut MavlinkParser::new(), &stream);
    assert_eq!(whole, vec![173; 4]);
    for size in 1..stream.len() {
        let mut parser = MavlinkParser::new();
        let mut found = vec![];
        for piece in stream.chunks(size) {
            found.extend(sequences(&mut parser, piece));
        }
        assert_eq!(found, whole, "pieces of {size}");
    }
}
