use rns_mavlink::fc::{
    chunks, AnnounceAction, AnnounceEvent, AnnounceNext, Bridge, Config, LinkAction, PortAction,
    PortEvent, CONFIG_PATH, SERIAL_PORT_READ_0_BYTES_LIMIT,
};
use rns_mavlink::link::{AddressHash, LinkEvent, LinkLoopEvent, LinkStatus};
use rns_mavlink::Fc;

const GROUND_CONTROL: AddressHash = AddressHash(0x758727c1d044e1fd8a838dc8d1832e95);
const ELSEWHERE: AddressHash = AddressHash(2);
const LINK: AddressHash = AddressHash(5);
const SECOND: u64 = 1_000_000_000;
const MDU: usize = 2048;

fn bridge() -> Bridge {
    let config = Config {
        log_level: "INFO".to_string(),
        log_throughput: false,
        serial_port: "/dev/ttyACM0".to_string(),
        serial_baud: 115200,
        gc_data_destination: "758727c1d044e1fd8a838dc8d1832e95".to_string(),
        radio_module: 1,
    };
    let fc = Fc::new(config, true).unwrap();
    assert!(fc.radio_client);
    assert_eq!(fc.config.serial_baud, 115200);
    fc.run(GROUND_CONTROL)
}

fn linked() -> Bridge {
    let mut bridge = bridge();
    let action = announce(&mut bridge, GROUND_CONTROL, None, 0);
    assert_eq!(action, AnnounceAction { close: None, next: AnnounceNext::CreateLink });
    bridge.announce_step(AnnounceEvent::Requested(LINK), 0);
    bridge
}

fn announce(
    bridge: &mut Bridge,
    address: AddressHash,
    status: Option<LinkStatus>,
    now: u64,
) -> AnnounceAction {
    bridge.announce_step(AnnounceEvent::Announce { address, status }, now)
}

fn on_link(event: LinkEvent) -> LinkLoopEvent {
    LinkLoopEvent::Link { address: GROUND_CONTROL, id: LINK, event }
}

#[test]
fn fc_config_path() {
    assert_eq!(CONFIG_PATH, "Fc.toml");
}

#[test]
fn link_is_created_once_for_ground_control() {
    let mut bridge = bridge();
    assert_eq!(announce(&mut bridge, ELSEWHERE, None, 0).next, AnnounceNext::Receive);
    assert_eq!(announce(&mut bridge, GROUND_CONTROL, None, 0).next, AnnounceNext::CreateLink);
    let action = bridge.announce_step(AnnounceEvent::Requested(LINK), 3);
    assert_eq!(action, AnnounceAction { close: None, next: AnnounceNext::Receive });
    assert_eq!(bridge.data_link(), Some(LINK));
    let pending = Some(LinkStatus::Pending);
    assert_eq!(announce(&mut bridge, GROUND_CONTROL, pending, 4).next, AnnounceNext::Receive);
}

#[test]
fn closed_link_is_given_up_and_replaced() {
    let mut bridge = linked();
    let action = announce(&mut bridge, GROUND_CONTROL, Some(LinkStatus::Closed), SECOND);
    assert_eq!(action, AnnounceAction { close: Some(LINK), next: AnnounceNext::CreateLink });
    assert_eq!(bridge.data_link(), None);
}

#[test]
fn request_expires_after_fifteen_seconds() {
    let mut bridge = linked();
    let quiet = |bridge: &mut Bridge, now: u64| {
        bridge.announce_step(AnnounceEvent::Quiet { status: Some(LinkStatus::Pending) }, now)
    };
    assert_eq!(quiet(&mut bridge, 15 * SECOND).close, None);
    assert_eq!(
        quiet(&mut bridge, 15 * SECOND + 1),
        AnnounceAction { close: Some(LINK), next: AnnounceNext::Receive }
    );
    assert_eq!(bridge.data_link(), None);
    assert_eq!(quiet(&mut bridge, 99 * SECOND).close, None);
}

#[test]
fn request_of_a_clock_that_went_back_is_kept() {
    let mut bridge = bridge();
    bridge.announce_step(AnnounceEvent::Requested(LINK), 100 * SECOND);
    assert_eq!(bridge.check_status(None, 0), None);
    assert_eq!(bridge.data_link(), Some(LINK));
}

#[test]
fn active_link_does_not_expire() {
    let mut bridge = linked();
    bridge.link_step(on_link(LinkEvent::Activated));
    assert_eq!(bridge.check_status(Some(LinkStatus::Active), 1000 * SECOND), None);
    assert_eq!(bridge.check_status(Some(LinkStatus::Stale), 2000 * SECOND), None);
    assert_eq!(bridge.data_link(), Some(LINK));
}

#[test]
fn link_closed_while_requested_is_asked_for_again() {
    let mut bridge = linked();
    bridge.link_step(on_link(LinkEvent::Closed));
    assert_eq!(bridge.data_link(), None);
    let action = announce(&mut bridge, GROUND_CONTROL, None, SECOND);
    assert_eq!(action, AnnounceAction { close: None, next: AnnounceNext::CreateLink });
}

#[test]
fn announce_loop_ends_with_the_announces() {
    let action = bridge().announce_step(AnnounceEvent::Broken, 0);
    assert_eq!(action, AnnounceAction { close: None, next: AnnounceNext::Stop });
}

#[test]
fn chunks_keep_all_bytes_in_order() {
    let data: Vec<u8> = (0..=255).collect();
    for size in [1, 7, 255, 256, 257] {
        let pieces = chunks(&data, size);
        let expected: Vec<Vec<u8>> = data.chunks(size).map(|piece| piece.to_vec()).collect();
        assert_eq!(pieces, expected);
        assert_eq!(pieces.concat(), data);
    }
    assert!(chunks(&[], 3).is_empty());
}

/// Sends what was read, with these outcomes of the checks before each chunk and
/// of the attempts to send it.
fn send(
    bridge: &mut Bridge,
    data: &[u8],
    outcomes: &[(Option<LinkStatus>, bool)],
) -> Vec<Vec<u8>> {
    let mut handed_out = vec![];
    let mut action = bridge.port_step(PortEvent::Read(data.to_vec()), MDU);
    for (status, sent) in outcomes {
        match action {
            PortAction::Check(link) => assert_eq!(link, LINK),
            other => panic!("{other:?}"),
        }
        action = bridge.port_step(PortEvent::Checked(*status), MDU);
        if let PortAction::Send { link, chunk, count } = action {
            assert_eq!(link, LINK);
            assert!(!count);
            handed_out.push(chunk);
            let event = if *sent { PortEvent::Sent } else { PortEvent::NotSent };
            action = bridge.port_step(event, MDU);
        }
    }
    assert!(matches!(action, PortAction::Read));
    handed_out
}

fn some_data() -> Vec<u8> {
    (0..2500u32).map(|i| (i % 251) as u8).collect()
}

#[test]
fn data_is_sent_in_chunks_of_half_a_packet() {
    let data = some_data();
    let open = (Some(LinkStatus::Active), true);
    let chunks = send(&mut linked(), &data, &[open; 3]);
    let sizes: Vec<usize> = chunks.iter().map(|chunk| chunk.len()).collect();
    assert_eq!(sizes, vec![1024, 1024, 452]);
    assert_eq!(chunks.concat(), data);
}

#[test]
fn data_goes_nowhere_without_a_link() {
    assert!(matches!(bridge().port_step(PortEvent::Read(some_data()), MDU), PortAction::Read));
}

#[test]
fn rest_is_dropped_when_the_link_is_not_open() {
    let data = some_data();
    let closed =
        [None, Some(LinkStatus::Closed), Some(LinkStatus::Pending), Some(LinkStatus::Handshake)];
    for status in closed {
        let mut bridge = linked();
        let outcomes = [(Some(LinkStatus::Stale), true), (status, true)];
        assert_eq!(send(&mut bridge, &data, &outcomes), vec![data[..1024].to_vec()]);
        assert!(matches!(bridge.port_step(PortEvent::Sent, MDU), PortAction::Read));
        assert!(matches!(
            bridge.port_step(PortEvent::Checked(Some(LinkStatus::Active)), MDU),
            PortAction::Read
        ));
    }
}

#[test]
fn chunk_that_could_not_be_sent_is_passed_over() {
    let data = some_data();
    let active = Some(LinkStatus::Active);
    let outcomes = [(active, true), (active, false), (active, true)];
    assert_eq!(send(&mut linked(), &data, &outcomes).concat(), data);
}

#[test]
fn thirty_empty_reads_in_a_row_end_the_loop() {
    let mut bridge = linked();
    for _ in 0..29 {
        assert!(matches!(bridge.port_step(PortEvent::Read(vec![]), MDU), PortAction::Read));
    }
    let data = bridge.port_step(PortEvent::Read(vec![1]), MDU);
    assert!(matches!(data, PortAction::Check(LINK)));
    for read in 0..29 {
        assert_eq!(bridge.idle_reads(), read);
        assert!(matches!(bridge.port_step(PortEvent::Read(vec![]), MDU), PortAction::Read));
        assert!(matches!(bridge.port_step(PortEvent::ReadFailed, MDU), PortAction::Read));
    }
    assert!(matches!(bridge.port_step(PortEvent::Read(vec![]), MDU), PortAction::Stop));
    assert_eq!(bridge.idle_reads(), SERIAL_PORT_READ_0_BYTES_LIMIT);
}

#[test]
fn link_data_goes_to_the_serial_port() {
    let mut bridge = bridge();
    match bridge.link_step(on_link(LinkEvent::Data(vec![4, 5]))) {
        LinkAction::Deliver { payload, count } => {
            assert_eq!(payload, vec![4, 5]);
            assert!(!count);
        }
        other => panic!("{other:?}"),
    }
    let foreign = LinkLoopEvent::Link {
        address: ELSEWHERE,
        id: LINK,
        event: LinkEvent::Data(vec![1]),
    };
    assert!(matches!(bridge.link_step(foreign), LinkAction::Receive));
    assert!(matches!(bridge.link_step(on_link(LinkEvent::Proof)), LinkAction::Receive));
    assert!(matches!(bridge.link_step(LinkLoopEvent::Delivered), LinkAction::Receive));
    assert!(matches!(bridge.link_step(LinkLoopEvent::Lagged), LinkAction::Receive));
    assert!(matches!(bridge.link_step(LinkLoopEvent::DeliveryFailed), LinkAction::Stop));
    assert!(matches!(bridge.link_step(LinkLoopEvent::Broken), LinkAction::Stop));
}

#[test]
fn data_is_sent_over_open_links() {
    assert!(LinkStatus::Active.is_open());
    assert!(LinkStatus::Stale.is_open());
    assert!(!LinkStatus::Pending.is_open());
    assert!(!LinkStatus::Handshake.is_open());
    assert!(!LinkStatus::Closed.is_open());
}
