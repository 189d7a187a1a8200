use mavlink::common::{MavMessage, STATUSTEXT_DATA};
use rns_mavlink::mavlog::{log_line, log_lines};
use rns_mavlink::parser::{MavFrame, MavHeader, MavlinkVersion};
use rns_mavlink::{log_mavlink, MavlinkParser};

const BEAT_173: [u8; 21] =
    [253, 9, 0, 0, 173, 1, 1, 0, 0, 0, 0, 0, 0, 0, 2, 3, 81, 3, 3, 64, 11];

/// A frame whose text is not UTF-8, which JSON cannot hold.
fn frame_without_json() -> MavFrame {
    let mut data = STATUSTEXT_DATA::default();
    data.text[0] = 0xff;
    MavFrame {
        protocol_version: MavlinkVersion::V2,
        header: MavHeader { system_id: 1, component_id: 1, sequence: 2 },
        msg: MavMessage::STATUSTEXT(data),
    }
}

fn beat() -> MavFrame {
    MavlinkParser::new().parse(&BEAT_173).remove(0)
}

#[test]
fn line_holds_its_parts() {
    assert_eq!(
        log_line("2018-01-26T18:30:09.453Z", "a \"b\"\n", "{\"x\":1}"),
        "{\"ts\":\"2018-01-26T18:30:09.453Z\",\"source\":\"a \\\"b\\\"\\n\",\"frame\":{\"x\":1}}\n"
    );
}

#[test]
fn frame_is_logged_as_json() {
    let batch = log_lines("now", "fc", &vec![beat()]);
    assert!(batch.error.is_none());
    assert_eq!(batch.lines.len(), 1);
    let line: serde_json::Value = serde_json::from_str(&batch.lines[0]).unwrap();
    assert_eq!(line["ts"], "now");
    assert_eq!(line["source"], "fc");
    assert_eq!(line["frame"]["header"]["sequence"], 173);
    assert_eq!(line["frame"]["header"]["system_id"], 1);
    assert_eq!(line["frame"]["protocol_version"]["type"], "V2");
    assert_eq!(line["frame"]["msg"]["type"], "HEARTBEAT");
    assert!(batch.lines[0].ends_with("}\n"));
}

#[test]
fn lines_end_before_a_frame_that_has_no_json() {
    let batch = log_lines("now", "fc", &vec![beat(), frame_without_json(), beat()]);
    assert_eq!(batch.lines.len(), 1);
    assert!(batch.error.is_some());
}

#[test]
fn log_has_the_time_in_utc() {
    let batch = log_mavlink("gc", vec![beat(), beat()]);
    assert!(batch.error.is_none());
    assert_eq!(batch.lines.len(), 2);
    let first: serde_json::Value = serde_json::from_str(&batch.lines[0]).unwrap();
    let second: serde_json::Value = serde_json::from_str(&batch.lines[1]).unwrap();
    let ts = first["ts"].as_str().unwrap();
    assert_eq!(ts.len(), 24);
    let form = "####-##-##T##:##:##.###Z";
    for (c, expected) in ts.chars().zip(form.chars()) {
        if expected == '#' {
            assert!(c.is_ascii_digit());
        } else {
            assert_eq!(c, expected);
        }
    }
    assert_eq!(first["ts"], second["ts"]);
    assert_eq!(first["source"], "gc");
}

#[test]
fn plain_text_only_gains_quotes() {
    let plain: String =
        (' '..='~').filter(|c| *c != '"' && *c != '\'' && *c != '\\').collect();
    assert_eq!(
        log_line(&plain, "", "1"),
        format!("{{\"ts\":\"{plain}\",\"source\":\"\",\"frame\":1}}\n")
    );
}
