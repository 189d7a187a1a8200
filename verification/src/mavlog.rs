//! The log of MAVLink traffic: one line of JSON for each frame.

use crate::parser::{MavFrame, MavHeader, MavlinkVersion};
use mavlink::common::MavMessage;
use vstd::prelude::*;

verus! {

/// The error of `serde_json::to_string`.
#[verifier::external_type_specification]
#[verifier::external_body]
pub struct ExJsonError(serde_json::Error);

/// What `serde_json::to_string` makes of a frame: its JSON, or the reason why it
/// has none.
pub uninterp spec fn frame_json(
    version: MavlinkVersion,
    header: MavHeader,
    msg: MavMessage,
) -> Result<Seq<char>, serde_json::Error>;

/// Whether a text is made of printable ASCII characters, none of them a quote or
/// a backslash.
pub open spec fn plain(text: Seq<char>) -> bool {
    forall|i: int|
        0 <= i < text.len() ==> ' ' <= #[trigger] text[i] <= '~' && text[i] != '"' && text[i]
            != '\'' && text[i] != '\\'
}

/// The `Debug` form of a text that is not plain: in quotes, with special
/// characters escaped.
pub uninterp spec fn escaped_text(text: Seq<char>) -> Seq<char>;

/// A text in quotes, as the `Debug` form of `str` shows it. Nothing has to be
/// escaped in a plain one.
pub open spec fn quoted_text(text: Seq<char>) -> Seq<char> {
    if plain(text) {
        seq!['"'] + text + seq!['"']
    } else {
        escaped_text(text)
    }
}

/// `serde_json::to_string` of the frame as `mavlink::MavFrame`, which is
/// [`frame_json`].
#[verifier::external_body]
fn to_json(frame: &MavFrame) -> (json: Result<String, serde_json::Error>)
    ensures
        match json {
            Ok(text) => frame_json(frame.protocol_version, frame.header, frame.msg) == Ok::<
                Seq<char>,
                serde_json::Error,
            >(text@),
            Err(err) => frame_json(frame.protocol_version, frame.header, frame.msg) == Err::<
                Seq<char>,
                serde_json::Error,
            >(err),
        },
{
    let MavHeader { system_id, component_id, sequence } = frame.header;
    serde_json::to_string(&mavlink::MavFrame {
        header: mavlink::MavHeader { system_id, component_id, sequence },
        msg: frame.msg.clone(),
        protocol_version: match frame.protocol_version {
            MavlinkVersion::V1 => mavlink::MavlinkVersion::V1,
            MavlinkVersion::V2 => mavlink::MavlinkVersion::V2,
        },
    })
}

/// The `Debug` form of `str`: a plain text in quotes, and [`escaped_text`] of any
/// other.
#[verifier::external_body]
fn quoted(text: &str) -> (shown: String)
    ensures
        plain(text@) ==> shown@ == seq!['"'] + text@ + seq!['"'],
        !plain(text@) ==> shown@ == escaped_text(text@),
{
    format!("{text:?}")
}

/// Whether a character is a digit.
pub open spec fn is_digit(c: char) -> bool {
    '0' <= c <= '9'
}

/// Whether a text has the form of a time in UTC to the millisecond, such as
/// `2018-01-26T18:30:09.453Z`. A year of more than four digits has a sign.
pub open spec fn is_timestamp(ts: Seq<char>) -> bool {
    let n = ts.len() as int;
    &&& n >= 24
    &&& ts[n - 20] == '-'
    &&& ts[n - 17] == '-'
    &&& ts[n - 14] == 'T'
    &&& ts[n - 11] == ':'
    &&& ts[n - 8] == ':'
    &&& ts[n - 5] == '.'
    &&& ts[n - 1] == 'Z'
    &&& forall|i: int|
        n - 24 <= i < n && i != n - 20 && i != n - 17 && i != n - 14 && i != n - 11 && i != n - 8
            && i != n - 5 && i != n - 1 ==> is_digit(#[trigger] ts[i])
    &&& forall|i: int| 0 <= i < n - 24 ==> is_digit(#[trigger] ts[i]) || ts[i] == '+'
}

/// A timestamp has nothing in it that would have to be escaped.
pub proof fn law_timestamp_is_plain(ts: Seq<char>)
    requires
        is_timestamp(ts),
    ensures
        plain(ts),
{
}

/// `chrono::Utc::now` in the form of `to_rfc3339_opts` with milliseconds and the
/// letter for UTC. Which time it is remains a matter of the clock. A clock that
/// stands before 1970 makes `now` panic.
#[verifier::external_body]
fn utc_timestamp() -> (ts: String)
    ensures
        is_timestamp(ts@),
{
    chrono::Utc::now().to_rfc3339_opts(chrono::SecondsFormat::Millis, true)
}

/// The line for a frame, given its JSON.
pub open spec fn line_text(ts: Seq<char>, source: Seq<char>, json: Seq<char>) -> Seq<char> {
    "{\"ts\":"@ + quoted_text(ts) + ",\"source\":"@ + quoted_text(source) + ",\"frame\":"@ + json
        + "}\n"@
}

/// The lines to write, and why there are no more of them.
#[derive(Debug)]
pub struct LogBatch {
    pub lines: Vec<String>,
    pub error: Option<serde_json::Error>,
}

/// The JSON of a frame.
pub open spec fn json_of(frame: MavFrame) -> Result<Seq<char>, serde_json::Error> {
    frame_json(frame.protocol_version, frame.header, frame.msg)
}

impl LogBatch {
    /// Whether this batch holds a line for each frame, in order, up to the first
    /// that has no JSON, and the error of that frame exactly where there is one.
    pub open spec fn covers(self, ts: Seq<char>, source: Seq<char>, frames: Seq<MavFrame>) -> bool {
        &&& self.lines@.len() <= frames.len()
        &&& forall|i: int|
            0 <= i < self.lines@.len() ==> (#[trigger] json_of(frames[i]) is Ok
                && self.lines@[i]@ == line_text(ts, source, json_of(frames[i])->Ok_0))
        &&& match self.error {
            None => self.lines@.len() == frames.len(),
            Some(err) => self.lines@.len() < frames.len() && json_of(
                frames[self.lines@.len() as int],
            ) == Err::<Seq<char>, serde_json::Error>(err),
        }
    }
}

/// Makes the line for a frame, given its JSON.
pub fn log_line(ts: &str, source: &str, json: &str) -> (line: String)
    ensures
        line@ == line_text(ts@, source@, json@),
{
    let mut line = String::new();
    line.append("{\"ts\":");
    line.append(quoted(ts).as_str());
    line.append(",\"source\":");
    line.append(quoted(source).as_str());
    line.append(",\"frame\":");
    line.append(json);
    line.append("}\n");
    assert(line@ =~= line_text(ts@, source@, json@));
    line
}

/// Makes the lines for frames that came from `source` at the time `ts`.
pub fn log_lines(ts: &str, source: &str, frames: &Vec<MavFrame>) -> (batch: LogBatch)
    ensures
        batch.covers(ts@, source@, frames@),
{
    let mut lines: Vec<String> = Vec::new();
    let mut i: usize = 0;
    while i < frames.len()
        invariant
            i <= frames@.len(),
            lines@.len() == i,
            forall|j: int|
                0 <= j < i ==> (#[trigger] json_of(frames@[j]) is Ok && lines@[j]@ == line_text(
                    ts@,
                    source@,
                    json_of(frames@[j])->Ok_0,
                )),
        decreases frames@.len() - i,
    {
        match to_json(&frames[i]) {
            Ok(json) => {
                lines.push(log_line(ts, source, json.as_str()));
            },
            Err(err) => {
                return LogBatch { lines, error: Some(err) };
            },
        }
        i = i + 1;
    }
    LogBatch { lines, error: None }
}

/// Makes the lines for frames that have just come from `source`. All lines of a
/// batch carry the same time, in UTC.
pub fn log_mavlink(source: &str, frames: Vec<MavFrame>) -> (batch: LogBatch)
    ensures
        exists|ts: Seq<char>|
            is_timestamp(ts) && #[trigger] batch.covers(ts, source@, frames@),
{
    let ts = utc_timestamp();
    let batch = log_lines(ts.as_str(), source, &frames);
    assert(batch.covers(ts@, source@, frames@));
    batch
}

/// Which lines there are, and which error if any, is settled by the time, the
/// source and the frames.
pub proof fn law_batch_is_settled(
    one: LogBatch,
    other: LogBatch,
    ts: Seq<char>,
    source: Seq<char>,
    frames: Seq<MavFrame>,
)
    requires
        one.covers(ts, source, frames),
        other.covers(ts, source, frames),
    ensures
        one.lines@.len() == other.lines@.len(),
        forall|i: int| 0 <= i < one.lines@.len() ==> (#[trigger] one.lines@[i])@ == other.lines@[i]@,
        one.error == other.error,
{
    assert(one.error is Some ==> json_of(frames[one.lines@.len() as int]) is Err);
    assert(other.error is Some ==> json_of(frames[other.lines@.len() as int]) is Err);
    assert forall|i: int| 0 <= i < one.lines@.len() implies (#[trigger] one.lines@[i])@
        == other.lines@[i]@ by {
        assert(json_of(frames[i]) is Ok);
    }
}

/// Where every frame has JSON, every frame has its line.
pub proof fn law_no_frame_is_left_out(
    batch: LogBatch,
    ts: Seq<char>,
    source: Seq<char>,
    frames: Seq<MavFrame>,
)
    requires
        batch.covers(ts, source, frames),
        forall|i: int| 0 <= i < frames.len() ==> #[trigger] json_of(frames[i]) is Ok,
    ensures
        batch.error is None,
        batch.lines@.len() == frames.len(),
{
}

/// Each line of a batch is that of the frame at the same place: an object with the
/// time, the source and the JSON that the frame itself has, and the end of the
/// line. Texts with nothing to escape stand in it as they are.
pub proof fn law_line_is_that_of_its_frame(
    batch: LogBatch,
    ts: Seq<char>,
    source: Seq<char>,
    frames: Seq<MavFrame>,
    i: int,
)
    requires
        batch.covers(ts, source, frames),
        0 <= i < batch.lines@.len(),
    ensures
        i < frames.len(),
        frame_json(frames[i].protocol_version, frames[i].header, frames[i].msg) is Ok,
        ({
            let json = frame_json(
                frames[i].protocol_version,
                frames[i].header,
                frames[i].msg,
            )->Ok_0;
            let shown_ts = if plain(ts) {
                "\""@ + ts + "\""@
            } else {
                escaped_text(ts)
            };
            let shown_source = if plain(source) {
                "\""@ + source + "\""@
            } else {
                escaped_text(source)
            };
            batch.lines@[i]@ == "{\"ts\":"@ + shown_ts + (",\"source\":"@ + shown_source + (
            ",\"frame\":"@ + json)) + "}\n"@
        }),
{
    reveal_strlit("\"");
    assert(json_of(frames[i]) is Ok);
    assert(seq!['"'] + ts + seq!['"'] =~= "\""@ + ts + "\""@);
    assert(seq!['"'] + source + seq!['"'] =~= "\""@ + source + "\""@);
    let json = json_of(frames[i])->Ok_0;
    assert(line_text(ts, source, json) =~= "{\"ts\":"@ + quoted_text(ts) + (",\"source\":"@
        + quoted_text(source) + (",\"frame\":"@ + json)) + "}\n"@);
}

/// A batch ends early at the first frame that has no JSON, with the error of that
/// frame, and for no other reason.
pub proof fn law_batch_ends_at_the_first_frame_without_json(
    batch: LogBatch,
    ts: Seq<char>,
    source: Seq<char>,
    frames: Seq<MavFrame>,
    first: int,
)
    requires
        batch.covers(ts, source, frames),
        0 <= first <= frames.len(),
        forall|i: int|
            0 <= i < first ==> {
                let frame = #[trigger] frames[i];
                frame_json(frame.protocol_version, frame.header, frame.msg) is Ok
            },
        first < frames.len() ==> frame_json(
            frames[first].protocol_version,
            frames[first].header,
            frames[first].msg,
        ) is Err,
    ensures
        batch.lines@.len() == first,
        first == frames.len() ==> batch.error is None,
        first < frames.len() ==> batch.error is Some && frame_json(
            frames[first].protocol_version,
            frames[first].header,
            frames[first].msg,
        ) == Err::<Seq<char>, serde_json::Error>(batch.error->0),
{
    let n = batch.lines@.len() as int;
    if n < first {
        assert(frame_json(frames[n].protocol_version, frames[n].header, frames[n].msg) is Ok);
        assert(json_of(frames[n]) is Ok);
    }
    if n > first {
        assert(json_of(frames[first]) is Ok);
    }
}

/// The line of a frame holds the time, the source and the JSON, in this order.
pub proof fn law_line_holds_its_parts(ts: Seq<char>, source: Seq<char>, json: Seq<char>)
    requires
        plain(ts),
        plain(source),
    ensures
        line_text(ts, source, json) == "{\"ts\":\""@ + ts + "\",\"source\":\""@ + source
            + "\",\"frame\":"@ + json + "}\n"@,
{
    reveal_strlit("{\"ts\":");
    reveal_strlit("{\"ts\":\"");
    reveal_strlit(",\"source\":");
    reveal_strlit("\",\"source\":\"");
    reveal_strlit(",\"frame\":");
    reveal_strlit("\",\"frame\":");
    let q = seq!['"'];
    assert("{\"ts\":"@ + q =~= "{\"ts\":\""@);
    assert(q + ",\"source\":"@ + q =~= "\",\"source\":\""@);
    assert(q + ",\"frame\":"@ =~= "\",\"frame\":"@);
    assert(line_text(ts, source, json) =~= ("{\"ts\":"@ + q) + ts + (q + ",\"source\":"@ + q) + source
        + (q + ",\"frame\":"@) + json + "}\n"@);
}

} // verus!
