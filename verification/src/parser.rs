//! Reassembly of MAVLink frames from a byte stream that arrives in pieces.

use crate::heartbeat::{heartbeat_message, Heartbeat};
use bytes::buf::Reader;
use bytes::{Buf, BufMut, BytesMut};
use mavlink::common::MavMessage;
use mavlink::error::{MessageReadError, ParserError};
use mavlink::peek_reader::PeekReader;
use mavlink::Message;
use vstd::prelude::*;

verus! {

/// A decoded message of the common dialect. Carried through, never looked into.
#[verifier::external_type_specification]
#[verifier::external_body]
pub struct ExMavMessage(mavlink::common::MavMessage);

/// The error of `mavlink::read_any_raw_message`.
#[verifier::external_type_specification]
#[verifier::external_body]
pub struct ExMessageReadError(mavlink::error::MessageReadError);

/// The error of `mavlink::Message::parse`.
#[verifier::external_type_specification]
#[verifier::external_body]
pub struct ExParserError(mavlink::error::ParserError);

/// The growable byte buffer of the `bytes` crate.
#[verifier::external_type_specification]
#[verifier::external_body]
pub struct ExBytesMut(bytes::BytesMut);

/// The `bytes` adapter that reads from a buffer.
#[verifier::external_type_specification]
#[verifier::external_body]
#[verifier::reject_recursive_types(B)]
pub struct ExReader<B>(bytes::buf::Reader<B>);

/// The `mavlink` reader that can look ahead without consuming.
#[verifier::external_type_specification]
#[verifier::external_body]
#[verifier::reject_recursive_types(R)]
pub struct ExPeekReader<R, const BUFFER_SIZE: usize>(
    mavlink::peek_reader::PeekReader<R, BUFFER_SIZE>,
);

/// The two wire formats of MAVLink.
#[derive(Debug, Clone, Copy, PartialEq, Eq, Structural)]
pub enum MavlinkVersion {
    V1,
    V2,
}

/// Who sent a frame, and its place in that sender's sequence.
#[derive(Debug, Clone, Copy, PartialEq, Eq, Structural)]
pub struct MavHeader {
    pub system_id: u8,
    pub component_id: u8,
    pub sequence: u8,
}

/// A frame whose message has been decoded.
#[derive(Debug)]
pub struct MavFrame {
    pub protocol_version: MavlinkVersion,
    pub header: MavHeader,
    pub msg: MavMessage,
}

/// A frame that passed the checksum, with its payload not yet decoded.
#[derive(Debug)]
pub struct RawMessage {
    pub version: MavlinkVersion,
    pub header: MavHeader,
    pub message_id: u32,
    pub payload: Vec<u8>,
}

/// The contents of a [`RawMessage`].
pub struct RawMessageView {
    pub version: MavlinkVersion,
    pub header: MavHeader,
    pub message_id: u32,
    pub payload: Seq<u8>,
}

impl View for RawMessage {
    type V = RawMessageView;

    open spec fn view(&self) -> RawMessageView {
        RawMessageView {
            version: self.version,
            header: self.header,
            message_id: self.message_id,
            payload: self.payload@,
        }
    }
}

/// The bytes that were put into a reader and that no frame has used up yet.
pub uninterp spec fn unread(reader: PeekReader<Reader<BytesMut>, 280>) -> Seq<u8>;

/// What `mavlink::read_any_raw_message` finds in these bytes: the first frame
/// with a valid checksum, if there is a whole one, and the bytes left after it.
pub uninterp spec fn next_message(bytes: Seq<u8>) -> (Option<RawMessageView>, Seq<u8>);

/// What `mavlink::common::MavMessage::parse` makes of a payload: a message, or
/// the reason why there is none.
pub uninterp spec fn decoded(version: MavlinkVersion, message_id: u32, payload: Seq<u8>) -> Result<
    MavMessage,
    ParserError,
>;

/// Why no frame could be read.
#[derive(Debug)]
pub enum ReadError {
    /// There is no whole frame yet.
    EndOfInput,
    /// Reading failed for another reason.
    Failed(MessageReadError),
}

/// What went wrong in a run of the parser.
#[derive(Debug)]
pub enum ParseError {
    /// Reading failed.
    Read(MessageReadError),
    /// The payload of a frame could not be decoded.
    Decode(ParserError),
}

/// `PeekReader::new` over the reader of an empty `BytesMut`: nothing is unread.
#[verifier::external_body]
fn empty_reader() -> (reader: PeekReader<Reader<BytesMut>, 280>)
    ensures
        unread(reader) == Seq::<u8>::empty(),
{
    PeekReader::new(BytesMut::new().reader())
}

/// `BufMut::put` on the buffer beneath the reader: the bytes follow those that
/// are already waiting.
#[verifier::external_body]
fn put(reader: &mut PeekReader<Reader<BytesMut>, 280>, bytes: &[u8])
    ensures
        unread(*final(reader)) == unread(*old(reader)) + bytes@,
{
    reader.reader_mut().get_mut().put(bytes)
}

/// `mavlink::read_any_raw_message`, with the fields of the message copied out.
///
/// The result and the bytes left are [`next_message`] of the unread bytes. A
/// frame found uses up at least the eight bytes of the shortest frame, and more
/// bytes behind those that are there would not change what is found. Where the
/// search ends for want of bytes, which is the only way in which it fails on a
/// buffer in memory, it has dropped only what no further bytes can complete. A
/// heartbeat frame at the front is found as it was written.
#[verifier::external_body]
fn read_any_raw_message(reader: &mut PeekReader<Reader<BytesMut>, 280>) -> (read: Result<
    RawMessage,
    ReadError,
>)
    ensures
        unread(*final(reader)) == next_message(unread(*old(reader))).1,
        match read {
            Ok(raw) => next_message(unread(*old(reader))).0 == Some(raw@),
            Err(_) => next_message(unread(*old(reader))).0 is None,
        },
        read is Err ==> read->Err_0 is EndOfInput,
        read is Ok ==> unread(*final(reader)).len() + 8 <= unread(*old(reader)).len(),
        unread(*final(reader)).is_suffix_of(unread(*old(reader))),
        read is Ok ==> forall|more: Seq<u8>|
            #[trigger] next_message(unread(*old(reader)) + more) == (
                next_message(unread(*old(reader))).0,
                unread(*final(reader)) + more,
            ),
        read is Err ==> forall|more: Seq<u8>|
            #[trigger] next_message(unread(*old(reader)) + more) == next_message(
                unread(*final(reader)) + more,
            ),
        read is Err ==> forall|more: Seq<u8>|
            (#[trigger] next_message(unread(*final(reader)) + more)).0 is Some ==> next_message(
                unread(*final(reader)) + more,
            ).1.len() < unread(*final(reader)).len() + more.len(),
        forall|beat: Heartbeat, header: MavHeader, more: Seq<u8>|
            unread(*old(reader)) == #[trigger] (beat.frame(header) + more) ==> read is Ok
                && read->Ok_0@ == beat.raw(header) && unread(*final(reader)) == more,
{
    let raw = match mavlink::read_any_raw_message::<MavMessage, _>(reader) {
        Ok(raw) => raw,
        Err(MessageReadError::Io(err)) if err.kind() == std::io::ErrorKind::UnexpectedEof =>
            return Err(ReadError::EndOfInput),
        Err(err) => return Err(ReadError::Failed(err)),
    };
    let version = match raw.version() {
        mavlink::MavlinkVersion::V1 => MavlinkVersion::V1,
        mavlink::MavlinkVersion::V2 => MavlinkVersion::V2,
    };
    let (system_id, component_id) = (raw.system_id(), raw.component_id());
    let header = MavHeader { system_id, component_id, sequence: raw.sequence() };
    Ok(RawMessage { version, header, message_id: raw.message_id(), payload: raw.payload().to_vec() })
}

/// `mavlink::common::MavMessage::parse`. What it makes of a payload is
/// [`decoded`]. Of the payload of a heartbeat it makes the message that was
/// written.
#[verifier::external_body]
fn parse_message(version: MavlinkVersion, message_id: u32, payload: &[u8]) -> (parsed: Result<
    MavMessage,
    ParserError,
>)
    ensures
        parsed == decoded(version, message_id, payload@),
        forall|beat: Heartbeat|
            message_id == 0 && payload@ == #[trigger] beat.payload() ==> parsed is Ok
                && parsed->Ok_0 == heartbeat_message(beat),
{
    let version = match version {
        MavlinkVersion::V1 => mavlink::MavlinkVersion::V1,
        MavlinkVersion::V2 => mavlink::MavlinkVersion::V2,
    };
    MavMessage::parse(version, message_id, payload)
}

/// The frame that a raw message becomes once its payload is decoded.
pub open spec fn framed(raw: RawMessageView, msg: MavMessage) -> MavFrame {
    MavFrame { protocol_version: raw.version, header: raw.header, msg }
}

/// What a run of the parser makes of the bytes that wait for it.
#[verifier::ext_equal]
pub struct Run {
    /// The frames found, in the order in which they came.
    pub frames: Seq<MavFrame>,
    /// The bytes left for the next run.
    pub rest: Seq<u8>,
    /// Why the payload of the frame at which the run ended could not be decoded,
    /// where it ended at such a frame.
    pub undecodable: Option<ParserError>,
}

/// The run over `bytes`: frame after frame, until there is no whole frame left
/// or a frame comes whose payload cannot be decoded. That frame is dropped.
pub open spec fn run(bytes: Seq<u8>) -> Run
    decreases bytes.len(),
{
    let (found, rest) = next_message(bytes);
    match found {
        Some(raw) => match decoded(raw.version, raw.message_id, raw.payload) {
            Ok(msg) => if rest.len() < bytes.len() {
                run(rest).after(framed(raw, msg))
            } else {
                Run { frames: Seq::empty(), rest, undecodable: None }
            },
            Err(err) => Run { frames: Seq::empty(), rest, undecodable: Some(err) },
        },
        None => Run { frames: Seq::empty(), rest, undecodable: None },
    }
}

impl Run {
    /// This run with one more frame in front.
    pub open spec fn after(self, frame: MavFrame) -> Run {
        Run { frames: seq![frame] + self.frames, ..self }
    }

    /// This run with more frames in front.
    pub open spec fn after_all(self, frames: Seq<MavFrame>) -> Run {
        Run { frames: frames + self.frames, ..self }
    }
}

/// Whether the run over `bytes` takes at least eight bytes for each frame.
pub open spec fn takes_eight_bytes_each(bytes: Seq<u8>) -> bool {
    8 * run(bytes).frames.len() + run(bytes).rest.len() <= bytes.len()
}

/// Whether a heartbeat frame at the front of `bytes` is read back as it was
/// written, and what follows it as if it stood alone.
pub open spec fn reads_back_heartbeat(bytes: Seq<u8>) -> bool {
    forall|beat: Heartbeat, header: MavHeader, more: Seq<u8>|
        bytes == #[trigger] (beat.frame(header) + more) ==> run(bytes) == run(more).after(
            framed(beat.raw(header), heartbeat_message(beat)),
        )
}

/// Whether the stream can go on behind `bytes` as if it had not been cut there,
/// where every payload so far could be decoded: there is nothing more to find in
/// what is left, and what is left with more bytes behind it gives the frames
/// that the stream would give after those found.
pub open spec fn can_go_on(bytes: Seq<u8>) -> bool {
    run(bytes).undecodable is None ==> {
        &&& run(run(bytes).rest) == (Run {
            frames: Seq::empty(),
            rest: run(bytes).rest,
            undecodable: None,
        })
        &&& forall|more: Seq<u8>|
            #[trigger] run(bytes + more) == run(run(bytes).rest + more).after_all(
                run(bytes).frames,
            )
    }
}

/// Reassembles frames out of pieces of a byte stream.
pub struct MavlinkParser {
    /// Holds the bytes of a frame that is not complete yet.
    pub reader: PeekReader<Reader<BytesMut>, 280>,
    /// Collects the frames of the current run.
    pub buffer: Vec<MavFrame>,
    /// What went wrong in the last run, if anything did. That there is no whole
    /// frame left is nothing wrong.
    pub error: Option<ParseError>,
}

impl MavlinkParser {
    /// The bytes kept for the next run.
    pub open spec fn pending(&self) -> Seq<u8> {
        unread(self.reader)
    }

    /// A parser that has seen no bytes.
    pub fn new() -> (parser: Self)
        ensures
            parser.pending() == Seq::<u8>::empty(),
            parser.buffer@ == Seq::<MavFrame>::empty(),
            parser.error is None,
    {
        MavlinkParser { reader: empty_reader(), buffer: Vec::new(), error: None }
    }

    /// The frame of a raw message, where its payload could be decoded.
    pub fn frame_of(raw: &RawMessage, parsed: Result<MavMessage, ParserError>) -> (frame: Result<
        MavFrame,
        ParserError,
    >)
        ensures
            frame == match parsed {
                Ok(msg) => Ok::<MavFrame, ParserError>(framed(raw@, msg)),
                Err(err) => Err(err),
            },
            frame is Ok <==> parsed is Ok,
            frame matches Ok(frame) ==> frame.protocol_version == raw.version && frame.header
                == raw.header && frame.msg == parsed->Ok_0,
    {
        match parsed {
            Ok(msg) => Ok(MavFrame { protocol_version: raw.version, header: raw.header, msg }),
            Err(err) => Err(err),
        }
    }

    /// Takes in the next piece of the stream and hands out the frames that are
    /// complete with it, in order.
    ///
    /// How the stream is cut into pieces does not matter: as long as every
    /// payload can be decoded, the frames of this piece followed by those of
    /// any next piece are the frames of both pieces taken in as one. Each frame
    /// takes at least eight bytes. A heartbeat frame is read back as it was
    /// written, and where there is nothing else it is all that is handed out.
    pub fn parse(&mut self, message: &[u8]) -> (frames: Vec<MavFrame>)
        ensures
            frames@ == old(self).buffer@ + run(old(self).pending() + message@).frames,
            final(self).buffer@ == Seq::<MavFrame>::empty(),
            final(self).pending() == run(old(self).pending() + message@).rest,
            final(self).error == match run(old(self).pending() + message@).undecodable {
                Some(err) => Some(ParseError::Decode(err)),
                None => None,
            },
            final(self).pending().is_suffix_of(old(self).pending() + message@),
            8 * (frames@.len() - old(self).buffer@.len()) + final(self).pending().len() <= old(
                self,
            ).pending().len() + message@.len(),
            takes_eight_bytes_each(old(self).pending() + message@),
            reads_back_heartbeat(old(self).pending() + message@),
            forall|beat: Heartbeat, header: MavHeader|
                old(self).pending() + message@ == #[trigger] beat.frame(header) ==> run(
                    old(self).pending() + message@,
                ) == (Run {
                    frames: seq![framed(beat.raw(header), heartbeat_message(beat))],
                    rest: Seq::empty(),
                    undecodable: None,
                }),
            can_go_on(old(self).pending() + message@),
            run(old(self).pending() + message@).undecodable is Some ==> forall|more: Seq<u8>|
                #[trigger] run(old(self).pending() + message@ + more) == (Run {
                    rest: final(self).pending() + more,
                    ..run(old(self).pending() + message@)
                }),
    {
        self.error = None;
        put(&mut self.reader, message);
        let ghost start = unread(self.reader);
        let ghost kept = self.buffer@;
        loop
            invariant_except_break
                self.error is None,
                self.buffer@.len() >= kept.len(),
                self.buffer@.take(kept.len() as int) == kept,
                8 * (self.buffer@.len() - kept.len()) + unread(self.reader).len() <= start.len(),
                run(start) == run(unread(self.reader)).after_all(self.buffer@.skip(kept.len() as int)),
                unread(self.reader) == start || reads_back_heartbeat(start),
                unread(self.reader) == start || forall|beat: Heartbeat, header: MavHeader|
                    start == #[trigger] beat.frame(header) ==> unread(self.reader).len() == 0
                        && self.buffer@.skip(kept.len() as int) == seq![
                        framed(beat.raw(header), heartbeat_message(beat)),
                    ],
                forall|more: Seq<u8>|
                    #[trigger] run(start + more) == run(unread(self.reader) + more).after_all(
                        self.buffer@.skip(kept.len() as int),
                    ),
            invariant
                start == old(self).pending() + message@,
                kept == old(self).buffer@,
                unread(self.reader).is_suffix_of(start),
            ensures
                self.buffer@ == kept + run(start).frames,
                unread(self.reader) == run(start).rest,
                self.error == match run(start).undecodable {
                    Some(err) => Some(ParseError::Decode(err)),
                    None => None,
                },
                takes_eight_bytes_each(start),
                reads_back_heartbeat(start),
                forall|beat: Heartbeat, header: MavHeader|
                    start == #[trigger] beat.frame(header) ==> run(start) == (Run {
                        frames: seq![framed(beat.raw(header), heartbeat_message(beat))],
                        rest: Seq::empty(),
                        undecodable: None,
                    }),
                run(start).undecodable is Some ==> forall|more: Seq<u8>|
                    #[trigger] run(start + more) == (Run {
                        rest: unread(self.reader) + more,
                        ..run(start)
                    }),
                run(start).undecodable is None ==> forall|more: Seq<u8>|
                    #[trigger] run(start + more) == run(unread(self.reader) + more).after_all(
                        run(start).frames,
                    ),
            decreases unread(self.reader).len(),
        {
            let ghost before = unread(self.reader);
            let ghost found = self.buffer@.skip(kept.len() as int);
            let read = read_any_raw_message(&mut self.reader);
            proof {
                assert forall|beat: Heartbeat, header: MavHeader| before == #[trigger] beat.frame(
                    header,
                ) implies read is Ok && read->Ok_0@ == beat.raw(header) && unread(
                    self.reader,
                ).len() == 0 by {
                    assert(beat.frame(header) + Seq::<u8>::empty() =~= beat.frame(header));
                }
            }
            match read {
                Ok(raw) => {
                    let parsed = parse_message(raw.version, raw.message_id, raw.payload.as_slice());
                    assert(before == start ==> reads_back_heartbeat(start));
                    match Self::frame_of(&raw, parsed) {
                        Ok(frame) => {
                            self.buffer.push(frame);
                            assert(self.buffer@.skip(kept.len() as int) =~= found.push(frame));
                        },
                        Err(err) => {
                            self.error = Some(ParseError::Decode(err));
                            break ;
                        },
                    }
                },
                Err(err) => {
                    match err {
                        ReadError::EndOfInput => {},
                        ReadError::Failed(err) => {
                            self.error = Some(ParseError::Read(err));
                        },
                    }
                    assert forall|more: Seq<u8>| #[trigger]
                        run(start + more) == run(unread(self.reader) + more).after_all(
                            run(start).frames,
                        ) by {
                        assert(next_message(before + more) == next_message(
                            unread(self.reader) + more,
                        ));
                        assert(run(start).frames =~= found);
                    }
                    break ;
                },
            }
        }
        proof {
            if run(start).undecodable is None {
                let none = Seq::<u8>::empty();
                assert(start + none =~= start);
                assert(unread(self.reader) + none =~= unread(self.reader));
                assert(run(start + none).frames =~= run(start).frames + run(
                    unread(self.reader),
                ).frames);
                assert(run(unread(self.reader)) =~= (Run {
                    frames: Seq::empty(),
                    rest: unread(self.reader),
                    undecodable: None,
                }));
            }
        }
        let mut frames = Vec::new();
        std::mem::swap(&mut frames, &mut self.buffer);
        frames
    }
}

/// What a fresh parser has handed out and kept after some pieces of a stream.
pub struct Fed {
    pub frames: Seq<MavFrame>,
    pub pending: Seq<u8>,
}

/// What a fresh parser has handed out and kept after these pieces.
pub open spec fn fed(pieces: Seq<Seq<u8>>) -> Fed
    decreases pieces.len(),
{
    if pieces.len() == 0 {
        Fed { frames: Seq::empty(), pending: Seq::empty() }
    } else {
        let before = fed(pieces.drop_last());
        let last = run(before.pending + pieces.last());
        Fed { frames: before.frames + last.frames, pending: last.rest }
    }
}

/// The stream that some pieces make up.
pub open spec fn joined(pieces: Seq<Seq<u8>>) -> Seq<u8>
    decreases pieces.len(),
{
    if pieces.len() == 0 {
        Seq::empty()
    } else {
        joined(pieces.drop_last()) + pieces.last()
    }
}

/// The bytes that the run over a piece goes over.
pub open spec fn run_over(pieces: Seq<Seq<u8>>, k: int) -> Seq<u8> {
    fed(pieces.take(k)).pending + pieces[k]
}

/// What is behind some pieces gives the same frames as if nothing had been cut.
proof fn lemma_pieces_go_on(pieces: Seq<Seq<u8>>, more: Seq<u8>)
    requires
        forall|k: int|
            0 <= k < pieces.len() ==> can_go_on(#[trigger] run_over(pieces, k)) && run(
                run_over(pieces, k),
            ).undecodable is None,
    ensures
        run(joined(pieces) + more) == run(fed(pieces).pending + more).after_all(fed(pieces).frames),
    decreases pieces.len(),
{
    if pieces.len() == 0 {
        assert(joined(pieces) =~= fed(pieces).pending);
        assert(run(more).after_all(fed(pieces).frames) =~= run(more));
        assert(joined(pieces) + more =~= more);
    } else {
        let front = pieces.drop_last();
        let last = pieces.last();
        let before = fed(front);
        assert forall|k: int| 0 <= k < front.len() implies can_go_on(
            #[trigger] run_over(front, k),
        ) && run(run_over(front, k)).undecodable is None by {
            assert(front.take(k) =~= pieces.take(k));
            assert(run_over(front, k) == run_over(pieces, k));
        }
        lemma_pieces_go_on(front, last + more);
        assert(pieces.take(pieces.len() - 1) =~= front);
        assert(run_over(pieces, pieces.len() - 1) == before.pending + last);
        assert(joined(pieces) + more =~= joined(front) + (last + more));
        assert(before.pending + last + more =~= before.pending + (last + more));
        assert(run(joined(pieces) + more).frames =~= run(
            fed(pieces).pending + more,
        ).after_all(fed(pieces).frames).frames);
    }
}

/// Where every payload can be decoded, it does not matter into how many pieces a
/// stream is cut, and where: all frames together are those of the whole stream,
/// and the same bytes are left. That the stream can go on behind each run is what
/// [`MavlinkParser::parse`] promises of the bytes that it is run over.
pub proof fn law_pieces_give_the_frames_of_the_stream(pieces: Seq<Seq<u8>>)
    requires
        pieces.len() > 0,
        forall|k: int|
            0 <= k < pieces.len() ==> can_go_on(#[trigger] run_over(pieces, k)) && run(
                run_over(pieces, k),
            ).undecodable is None,
    ensures
        run(joined(pieces)) == (Run {
            frames: fed(pieces).frames,
            rest: fed(pieces).pending,
            undecodable: None,
        }),
{
    let none = Seq::<u8>::empty();
    lemma_pieces_go_on(pieces, none);
    assert(joined(pieces) + none =~= joined(pieces));
    assert(fed(pieces).pending + none =~= fed(pieces).pending);
    assert(pieces.take(pieces.len() - 1) =~= pieces.drop_last());
    assert(can_go_on(run_over(pieces, pieces.len() - 1)));
    assert(run(joined(pieces)).frames =~= fed(pieces).frames);
}

/// However a stream is cut into pieces, all frames together number at most an
/// eighth of its bytes. That each run takes eight bytes for a frame is what
/// [`MavlinkParser::parse`] promises of the bytes that it is run over.
pub proof fn law_frames_take_eight_bytes(pieces: Seq<Seq<u8>>)
    requires
        forall|k: int|
            0 <= k < pieces.len() ==> takes_eight_bytes_each(#[trigger] run_over(pieces, k)),
    ensures
        8 * fed(pieces).frames.len() + fed(pieces).pending.len() <= joined(pieces).len(),
        fed(pieces).frames.len() <= joined(pieces).len() / 8,
    decreases pieces.len(),
{
    if pieces.len() > 0 {
        let front = pieces.drop_last();
        assert forall|k: int| 0 <= k < front.len() implies takes_eight_bytes_each(
            #[trigger] run_over(front, k),
        ) by {
            assert(front.take(k) =~= pieces.take(k));
            assert(run_over(front, k) == run_over(pieces, k));
        }
        law_frames_take_eight_bytes(front);
        assert(pieces.take(pieces.len() - 1) =~= front);
        assert(takes_eight_bytes_each(run_over(pieces, pieces.len() - 1)));
    }
}

/// Every message that is read and that decodes is handed out, in the order in
/// which it was read and with its own version, header and contents, whatever kind
/// of message it is. `left` are the bytes that are left after each read, down to
/// those in which there is no whole message, or one that cannot be decoded.
pub proof fn law_every_message_read_is_handed_out(
    left: Seq<Seq<u8>>,
    raws: Seq<RawMessageView>,
    msgs: Seq<MavMessage>,
)
    requires
        left.len() == raws.len() + 1,
        msgs.len() == raws.len(),
        forall|i: int|
            0 <= i < raws.len() ==> #[trigger] next_message(left[i]) == (
                Some(raws[i]),
                left[i + 1],
            ) && left[i + 1].len() < left[i].len() && decoded(
                raws[i].version,
                raws[i].message_id,
                raws[i].payload,
            ) == Ok::<MavMessage, ParserError>(msgs[i]),
        next_message(left.last()).0 matches Some(raw) ==> decoded(
            raw.version,
            raw.message_id,
            raw.payload,
        ) is Err,
    ensures
        run(left[0]).frames.len() == raws.len(),
        forall|i: int|
            0 <= i < raws.len() ==> {
                let frame = #[trigger] run(left[0]).frames[i];
                &&& frame.protocol_version == raws[i].version
                &&& frame.header == raws[i].header
                &&& frame.msg == msgs[i]
            },
        run(left[0]).rest == next_message(left.last()).1,
        match next_message(left.last()).0 {
            Some(raw) => Err::<MavMessage, ParserError>(run(left[0]).undecodable->0) == decoded(
                raw.version,
                raw.message_id,
                raw.payload,
            ) && run(left[0]).undecodable is Some,
            None => run(left[0]).undecodable is None,
        },
    decreases raws.len(),
{
    if raws.len() > 0 {
        let later = left.drop_first();
        assert(next_message(left[0]) == (Some(raws[0]), left[1]));
        assert forall|i: int| 0 <= i < raws.len() - 1 implies #[trigger] next_message(later[i]) == (
            Some(raws.drop_first()[i]),
            later[i + 1],
        ) && later[i + 1].len() < later[i].len() && decoded(
            raws.drop_first()[i].version,
            raws.drop_first()[i].message_id,
            raws.drop_first()[i].payload,
        ) == Ok::<MavMessage, ParserError>(msgs.drop_first()[i]) by {
            assert(next_message(left[i + 1]) == (Some(raws[i + 1]), left[i + 2]));
        }
        law_every_message_read_is_handed_out(later, raws.drop_first(), msgs.drop_first());
        let rest = run(left[1]);
        assert forall|i: int| 0 <= i < raws.len() implies {
            let frame = #[trigger] run(left[0]).frames[i];
            &&& frame.protocol_version == raws[i].version
            &&& frame.header == raws[i].header
            &&& frame.msg == msgs[i]
        } by {
            if i > 0 {
                assert(run(left[0]).frames[i] == rest.frames[i - 1]);
            }
        }
    }
}

/// The view of a raw message shows what it holds, and the bytes that a parser
/// keeps are those that its reader has not used up.
pub proof fn law_views_show_the_contents(raw: RawMessage, parser: MavlinkParser)
    ensures
        raw@.version == raw.version && raw@.header == raw.header,
        raw@.message_id == raw.message_id && raw@.payload == raw.payload@,
        parser.pending() == unread(parser.reader),
{
}

} // verus!
