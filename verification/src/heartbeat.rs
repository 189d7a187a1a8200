//! The heartbeat by which a bridge makes itself known to a ground station.

use crate::checksum::{x25, HEARTBEAT_EXTRA};
use crate::parser::{MavHeader, MavlinkVersion, RawMessageView};
use mavlink::common::{
    MavAutopilot, MavMessage, MavModeFlag, MavState, MavType, HEARTBEAT_DATA,
};
use mavlink::error::MessageWriteError;
use vstd::prelude::*;

verus! {

/// The error of `mavlink::write_v1_msg`.
#[verifier::external_type_specification]
#[verifier::external_body]
pub struct ExMessageWriteError(mavlink::error::MessageWriteError);

/// The kinds of vehicle that a heartbeat can announce.
#[derive(Debug, Clone, Copy, PartialEq, Eq, Structural)]
pub enum VehicleType {
    Quadrotor,
}

/// The autopilots that a heartbeat can announce.
#[derive(Debug, Clone, Copy, PartialEq, Eq, Structural)]
pub enum Autopilot {
    ArdupilotMega,
}

/// The system states that a heartbeat can announce.
#[derive(Debug, Clone, Copy, PartialEq, Eq, Structural)]
pub enum SystemStatus {
    Standby,
}

/// The mode flag of a vehicle that takes manual input.
pub const MODE_MANUAL_INPUT_ENABLED: u8 = 64;

/// The mode flag of a vehicle that stabilizes itself.
pub const MODE_STABILIZE_ENABLED: u8 = 16;

/// The mode flag of a vehicle in a mode of its own.
pub const MODE_CUSTOM_MODE_ENABLED: u8 = 1;

/// The contents of a heartbeat.
#[derive(Debug, Clone, Copy, PartialEq, Eq, Structural)]
pub struct Heartbeat {
    pub custom_mode: u32,
    pub vehicle: VehicleType,
    pub autopilot: Autopilot,
    pub base_mode: u8,
    pub system_status: SystemStatus,
    pub mavlink_version: u8,
}

impl Heartbeat {
    /// The payload of the heartbeat: the custom mode, lowest byte first, and
    /// one byte for each of the other fields.
    pub open spec fn payload(self) -> Seq<u8> {
        seq![
            (self.custom_mode % 256) as u8,
            (self.custom_mode / 256 % 256) as u8,
            (self.custom_mode / 65536 % 256) as u8,
            (self.custom_mode / 16777216) as u8,
            match self.vehicle {
                VehicleType::Quadrotor => 2u8,
            },
            match self.autopilot {
                Autopilot::ArdupilotMega => 3u8,
            },
            self.base_mode,
            match self.system_status {
                SystemStatus::Standby => 3u8,
            },
            self.mavlink_version,
        ]
    }

    /// The bytes that the checksum covers: all of the frame but its marker.
    pub open spec fn covered(self, header: MavHeader) -> Seq<u8> {
        seq![9u8, header.sequence, header.system_id, header.component_id, 0u8] + self.payload()
    }

    /// The version 1 frame of the heartbeat, with its checksum, lowest byte
    /// first.
    pub open spec fn frame(self, header: MavHeader) -> Seq<u8> {
        let checksum = x25(self.covered(header).push(HEARTBEAT_EXTRA));
        seq![0xFEu8] + self.covered(header) + seq![(checksum % 256) as u8, (checksum / 256) as u8]
    }

    /// What a reader finds in the frame.
    pub open spec fn raw(self, header: MavHeader) -> RawMessageView {
        RawMessageView {
            version: MavlinkVersion::V1,
            header,
            message_id: 0,
            payload: self.payload(),
        }
    }
}

/// The message `mavlink::common::MavMessage::HEARTBEAT` with these contents.
pub uninterp spec fn heartbeat_message(beat: Heartbeat) -> MavMessage;

/// `mavlink::common::MavMessage::HEARTBEAT`, which is [`heartbeat_message`].
#[verifier::external_body]
fn message_of(beat: Heartbeat) -> (msg: MavMessage)
    ensures
        msg == heartbeat_message(beat),
{
    MavMessage::HEARTBEAT(HEARTBEAT_DATA {
        custom_mode: beat.custom_mode,
        mavtype: match beat.vehicle { VehicleType::Quadrotor => MavType::MAV_TYPE_QUADROTOR },
        autopilot: match beat.autopilot {
            Autopilot::ArdupilotMega => MavAutopilot::MAV_AUTOPILOT_ARDUPILOTMEGA,
        },
        base_mode: MavModeFlag::from_bits_retain(beat.base_mode),
        system_status: match beat.system_status { SystemStatus::Standby => MavState::MAV_STATE_STANDBY },
        mavlink_version: beat.mavlink_version,
    })
}

/// `mavlink::write_v1_msg` of a heartbeat into an empty vector.
///
/// A heartbeat has a version 1 form and a vector takes all bytes, so that the
/// call succeeds; the bytes are those of [`Heartbeat::frame`].
#[verifier::external_body]
fn write_v1_msg(header: MavHeader, msg: &MavMessage) -> (written: Result<
    Vec<u8>,
    MessageWriteError,
>)
    requires
        exists|beat: Heartbeat| *msg == #[trigger] heartbeat_message(beat),
    ensures
        written is Ok,
        forall|beat: Heartbeat|
            *msg == #[trigger] heartbeat_message(beat) ==> written->Ok_0@ == beat.frame(header),
{
    let MavHeader { system_id, component_id, sequence } = header;
    let (mut out, header) = (vec![], mavlink::MavHeader { system_id, component_id, sequence });
    mavlink::write_v1_msg(&mut out, header, msg)?;
    Ok(out)
}

/// The heartbeat of the bridge: a quadrotor on standby.
pub open spec fn bridge_heartbeat() -> Heartbeat {
    Heartbeat {
        custom_mode: 0,
        vehicle: VehicleType::Quadrotor,
        autopilot: Autopilot::ArdupilotMega,
        base_mode: 81,
        system_status: SystemStatus::Standby,
        mavlink_version: 3,
    }
}

/// The header of a heartbeat of the bridge.
pub open spec fn bridge_header(sequence: u8) -> MavHeader {
    MavHeader { system_id: 1, component_id: 1, sequence }
}

/// The bytes of the heartbeat with a sequence number.
pub open spec fn heartbeat_frame(sequence: u8) -> Seq<u8> {
    bridge_heartbeat().frame(bridge_header(sequence))
}

/// The sequence number after another: the next one, and zero after the last.
pub open spec fn next_sequence(sequence: u8) -> u8 {
    ((sequence + 1) % 256) as u8
}

/// The next heartbeat. `sequence` is the number of the one before.
pub fn heartbeat(sequence: &mut u8) -> (written: Result<Vec<u8>, MessageWriteError>)
    ensures
        *final(sequence) == next_sequence(*old(sequence)),
        written matches Ok(bytes) && bytes@ == heartbeat_frame(*final(sequence)),
{
    *sequence = sequence.wrapping_add(1);
    let header = MavHeader { system_id: 1, component_id: 1, sequence: *sequence };
    let beat = Heartbeat {
        custom_mode: 0,
        vehicle: VehicleType::Quadrotor,
        autopilot: Autopilot::ArdupilotMega,
        base_mode: MODE_MANUAL_INPUT_ENABLED | MODE_STABILIZE_ENABLED | MODE_CUSTOM_MODE_ENABLED,
        system_status: SystemStatus::Standby,
        mavlink_version: 3,
    };
    assert(64u8 | 16u8 | 1u8 == 81u8) by (bit_vector);
    let msg = message_of(beat);
    write_v1_msg(header, &msg)
}

/// The sequence number after some heartbeats.
pub open spec fn sequence_after(sequence: u8, beats: nat) -> u8
    decreases beats,
{
    if beats == 0 {
        sequence
    } else {
        next_sequence(sequence_after(sequence, (beats - 1) as nat))
    }
}

/// Heartbeats are numbered one after the other, starting over after 255.
pub proof fn law_heartbeats_are_numbered(sequence: u8, beats: nat)
    ensures
        sequence_after(sequence, beats) == (sequence + beats) % 256,
    decreases beats,
{
    if beats > 0 {
        law_heartbeats_are_numbered(sequence, (beats - 1) as nat);
    }
}

/// A heartbeat frame is seventeen bytes: fifteen that are settled by its number,
/// and the checksum of all of them but the first, and of the extra byte.
pub proof fn law_heartbeat_frame_layout(sequence: u8)
    ensures
        heartbeat_frame(sequence).len() == 17,
        heartbeat_frame(sequence).take(15) == seq![
            0xFEu8, 9u8, sequence, 1u8, 1u8, 0u8, 0u8, 0u8, 0u8, 0u8, 2u8, 3u8, 81u8, 3u8, 3u8,
        ],
        heartbeat_frame(sequence)[15] + 256 * heartbeat_frame(sequence)[16] == x25(
            heartbeat_frame(sequence).subrange(1, 15).push(50u8),
        ),
{
    let covered = bridge_heartbeat().covered(bridge_header(sequence));
    assert(heartbeat_frame(sequence).subrange(1, 15) =~= covered);
}

/// Two heartbeats differ at most in their numbers and checksums.
pub proof fn law_heartbeats_are_alike(one: u8, other: u8, i: int)
    requires
        0 <= i < 15,
        i != 2,
    ensures
        heartbeat_frame(one)[i] == heartbeat_frame(other)[i],
{
    law_heartbeat_frame_layout(one);
    law_heartbeat_frame_layout(other);
    assert(heartbeat_frame(one)[i] == heartbeat_frame(one).take(15)[i]);
    assert(heartbeat_frame(other)[i] == heartbeat_frame(other).take(15)[i]);
}

/// The payload of a heartbeat gives back its fields.
pub proof fn law_payload_holds_the_fields(beat: Heartbeat)
    ensures
        beat.payload().len() == 9,
        beat.payload()[0] + 256 * beat.payload()[1] + 65536 * beat.payload()[2] + 16777216
            * beat.payload()[3] == beat.custom_mode,
        beat.payload()[4] == 2,
        beat.payload()[5] == 3,
        beat.payload()[6] == beat.base_mode,
        beat.payload()[7] == 3,
        beat.payload()[8] == beat.mavlink_version,
{
}

/// Around its payload, the frame of a heartbeat has the marker of version 1, the
/// length, who sent it, the message id, and the checksum.
pub proof fn law_frame_holds_header_and_payload(beat: Heartbeat, header: MavHeader)
    ensures
        beat.frame(header).len() == 17,
        beat.frame(header)[0] == 254,
        beat.frame(header)[1] == 9,
        beat.frame(header)[2] == header.sequence,
        beat.frame(header)[3] == header.system_id,
        beat.frame(header)[4] == header.component_id,
        beat.frame(header)[5] == 0,
        beat.frame(header).subrange(6, 15) == beat.payload(),
        beat.frame(header)[15] + 256 * beat.frame(header)[16] == x25(
            beat.frame(header).subrange(1, 15).push(50u8),
        ),
        beat.raw(header).version is V1,
        beat.raw(header).header == header,
        beat.raw(header).message_id == 0,
        beat.raw(header).payload == beat.frame(header).subrange(6, 15),
{
    assert(beat.frame(header).subrange(6, 15) =~= beat.payload());
    assert(beat.frame(header).subrange(1, 15) =~= beat.covered(header));
}

/// The number after another is one more, and zero after the largest.
pub proof fn law_number_after_another(sequence: u8)
    ensures
        sequence < 255 ==> next_sequence(sequence) == sequence + 1,
        sequence == 255 ==> next_sequence(sequence) == 0,
{
}

} // verus!
