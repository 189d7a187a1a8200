use rns_mavlink::gc::{
    default_announce_interval_seconds, AnnounceAction, AnnounceEvent, Bridge, Config, Ipv4Address,
    LinkAction, Phase, SocketAction, SocketAddress, SocketEvent,
};
use rns_mavlink::link::{AddressHash, LinkEvent, LinkLoopEvent, LinkStatus};
use rns_mavlink::Gc;

const DESTINATION: AddressHash = AddressHash(0xdb332f13541eb2e4b47d02923fbbcb9a);
const ELSEWHERE: AddressHash = AddressHash(1);
const LINK: AddressHash = AddressHash(77);
const STATION: Ipv4Address = Ipv4Address { a: 127, b: 0, c: 0, d: 1 };

fn ground_control(gc_udp_address: Option<Ipv4Address>, radio_config_link: bool) -> Gc {
    let config = Config {
        log_level: "INFO".to_string(),
        log_throughput: true,
        gc_udp_address,
        gc_udp_subnet: Ipv4Address { a: 192, b: 168, c: 1, d: 99 },
        gc_udp_port: 14550,
        gc_reply_port: 9999,
        announce_interval_seconds: default_announce_interval_seconds(),
        fc_destination: "db332f13541eb2e4b47d02923fbbcb9a".to_string(),
        radio_module: 0,
        radio_config_link,
    };
    let gc = Gc::new(config, false);
    assert!(!gc.radio_client);
    gc
}

fn bridge(gc_udp_address: Option<Ipv4Address>) -> Bridge {
    ground_control(gc_udp_address, false).run(DESTINATION, 0)
}

fn host(d: u8) -> SocketAddress {
    SocketAddress { ip: Ipv4Address { a: 192, b: 168, c: 1, d }, port: 14550 }
}

fn step(bridge: &mut Bridge, event: SocketEvent) -> SocketAction {
    assert!(bridge.accepts(&event));
    bridge.socket_step(event)
}

fn heartbeat_to(action: SocketAction) -> (u8, SocketAddress) {
    match action {
        SocketAction::SendHeartbeat { bytes, to } => (bytes[2], to),
        other => panic!("{other:?}"),
    }
}

fn listening(bridge: &mut Bridge) {
    step(bridge, SocketEvent::Begin);
    let action = step(bridge, SocketEvent::Sent);
    assert!(matches!(action, SocketAction::Receive { seconds: 10 }));
}

fn on_link(address: AddressHash, event: LinkEvent) -> LinkLoopEvent {
    LinkLoopEvent::Link { address, id: LINK, event }
}

#[test]
fn announce_interval_default() {
    assert_eq!(default_announce_interval_seconds(), 5);
}

#[test]
fn configured_station_is_contacted_and_listened_to() {
    let mut bridge = bridge(Some(STATION));
    assert_eq!(bridge.phase(), Phase::Start);
    let (number, to) = heartbeat_to(step(&mut bridge, SocketEvent::Begin));
    assert_eq!(number, 1);
    assert_eq!(to, SocketAddress { ip: STATION, port: 14550 });
    let action = step(&mut bridge, SocketEvent::Sent);
    assert!(matches!(action, SocketAction::Receive { seconds: 10 }));
    assert_eq!(bridge.phase(), Phase::Listening);
}

#[test]
fn configured_station_is_tried_again_while_the_network_is_down() {
    let mut bridge = bridge(Some(STATION));
    step(&mut bridge, SocketEvent::Begin);
    let action = step(&mut bridge, SocketEvent::NetworkUnreachable);
    assert!(matches!(action, SocketAction::Wait { seconds: 4 }));
    assert_eq!(heartbeat_to(step(&mut bridge, SocketEvent::Waited)).0, 2);
}

#[test]
fn other_send_errors_end_the_loop() {
    for configured in [Some(STATION), None] {
        let mut bridge = bridge(configured);
        step(&mut bridge, SocketEvent::Begin);
        assert!(matches!(step(&mut bridge, SocketEvent::SendFailed), SocketAction::Stop));
        assert_eq!(bridge.phase(), Phase::Stopped);
        assert!(!bridge.accepts(&SocketEvent::Begin));
    }
}

#[test]
fn search_walks_all_hosts_and_starts_over() {
    let mut bridge = bridge(None);
    let mut action = step(&mut bridge, SocketEvent::Begin);
    for round in 0..300u32 {
        let (number, to) = heartbeat_to(action);
        assert_eq!(number as u32, (round + 1) % 256);
        assert_eq!(to, host((2 + round % 253) as u8));
        let sent = if round % 2 == 0 {
            SocketEvent::Sent
        } else {
            SocketEvent::NetworkUnreachable
        };
        let waiting = step(&mut bridge, sent);
        assert!(matches!(waiting, SocketAction::AwaitReply { millis: 50 }));
        action = step(&mut bridge, SocketEvent::NoReply);
    }
}

#[test]
fn station_that_answers_gets_the_data() {
    let mut bridge = bridge(None);
    step(&mut bridge, SocketEvent::Begin);
    step(&mut bridge, SocketEvent::Sent);
    let before = bridge.link_step(on_link(DESTINATION, LinkEvent::Data(vec![1])));
    assert!(matches!(before, LinkAction::Receive));
    let action = step(&mut bridge, SocketEvent::Reply(host(17)));
    assert!(matches!(action, SocketAction::Receive { seconds: 10 }));
    match bridge.link_step(on_link(DESTINATION, LinkEvent::Data(vec![1, 2, 3]))) {
        LinkAction::Deliver { payload, to, count } => {
            assert_eq!(payload, vec![1, 2, 3]);
            assert_eq!(to, host(17));
            assert!(count);
        }
        other => panic!("{other:?}"),
    }
}

#[test]
fn silence_forgets_the_station_and_starts_over() {
    let mut bridge = bridge(Some(STATION));
    listening(&mut bridge);
    let (number, to) = heartbeat_to(step(&mut bridge, SocketEvent::Silence));
    assert_eq!(number, 2);
    assert_eq!(to.ip, STATION);
    let dropped = bridge.link_step(on_link(DESTINATION, LinkEvent::Data(vec![1])));
    assert!(matches!(dropped, LinkAction::Receive));
}

#[test]
fn datagrams_go_over_the_data_link() {
    let mut bridge = bridge(Some(STATION));
    listening(&mut bridge);
    let empty = step(&mut bridge, SocketEvent::Datagram(vec![]));
    assert!(matches!(empty, SocketAction::Receive { .. }));
    let failed = step(&mut bridge, SocketEvent::ReceiveFailed);
    assert!(matches!(failed, SocketAction::Receive { .. }));
    match step(&mut bridge, SocketEvent::Datagram(vec![9, 8])) {
        SocketAction::Forward { data, link, .. } => {
            assert_eq!(data, vec![9, 8]);
            assert_eq!(link, None);
        }
        other => panic!("{other:?}"),
    }
    step(&mut bridge, SocketEvent::Forwarded);
    bridge.link_step(on_link(DESTINATION, LinkEvent::Activated));
    match step(&mut bridge, SocketEvent::Datagram(vec![7])) {
        SocketAction::Forward { data, link, count } => {
            assert_eq!(data, vec![7]);
            assert_eq!(link, Some(LINK));
            assert!(count);
        }
        other => panic!("{other:?}"),
    }
}

#[test]
fn only_links_of_the_destination_matter() {
    let mut bridge = bridge(None);
    bridge.link_step(on_link(ELSEWHERE, LinkEvent::Activated));
    assert_eq!(bridge.data_link(), None);
    bridge.link_step(on_link(DESTINATION, LinkEvent::Activated));
    bridge.link_step(on_link(ELSEWHERE, LinkEvent::Closed));
    bridge.link_step(on_link(DESTINATION, LinkEvent::Proof));
    assert_eq!(bridge.data_link(), Some(LINK));
    bridge.link_step(on_link(DESTINATION, LinkEvent::Closed));
    assert_eq!(bridge.data_link(), None);
}

#[test]
fn gc_link_loop_ends_when_it_cannot_go_on() {
    let mut bridge = bridge(None);
    assert!(matches!(bridge.link_step(LinkLoopEvent::Delivered), LinkAction::Receive));
    assert!(matches!(bridge.link_step(LinkLoopEvent::Lagged), LinkAction::Receive));
    assert!(matches!(bridge.link_step(LinkLoopEvent::DeliveryFailed), LinkAction::Stop));
    assert!(matches!(bridge.link_step(LinkLoopEvent::Broken), LinkAction::Stop));
}

#[test]
fn announces_go_out_and_give_up_a_link_that_is_not_open() {
    let mut bridge = bridge(None);
    assert_eq!(bridge.announce_step(AnnounceEvent::Begin), AnnounceAction::Announce);
    assert_eq!(
        bridge.announce_step(AnnounceEvent::Announced),
        AnnounceAction::Wait { seconds: 5 }
    );
    assert_eq!(bridge.announce_step(AnnounceEvent::Waited), AnnounceAction::Announce);
    bridge.link_step(on_link(DESTINATION, LinkEvent::Activated));
    assert_eq!(bridge.announce_step(AnnounceEvent::Waited), AnnounceAction::LookUp(LINK));
    for kept in [None, Some(LinkStatus::Active), Some(LinkStatus::Stale)] {
        let event = AnnounceEvent::Found { id: LINK, status: kept };
        assert_eq!(bridge.announce_step(event), AnnounceAction::Announce);
        assert_eq!(bridge.data_link(), Some(LINK));
    }
    for lost in [LinkStatus::Closed, LinkStatus::Pending, LinkStatus::Handshake] {
        bridge.link_step(on_link(DESTINATION, LinkEvent::Activated));
        let other = AnnounceEvent::Found { id: ELSEWHERE, status: Some(lost) };
        bridge.announce_step(other);
        assert_eq!(bridge.data_link(), Some(LINK));
        bridge.announce_step(AnnounceEvent::Found { id: LINK, status: Some(lost) });
        assert_eq!(bridge.data_link(), None);
    }
}

#[test]
fn gc_config_path() {
    assert_eq!(rns_mavlink::gc::CONFIG_PATH, "Gc.toml");
}

#[test]
fn second_run_goes_on_counting_heartbeats() {
    let mut first = bridge(Some(STATION));
    let (number, _) = heartbeat_to(step(&mut first, SocketEvent::Begin));
    assert_eq!((number, first.last_heartbeat()), (1, 1));
    let mut second = ground_control(Some(STATION), false).run(DESTINATION, first.last_heartbeat());
    assert_eq!(second.last_heartbeat(), 1);
    let (number, _) = heartbeat_to(step(&mut second, SocketEvent::Begin));
    assert_eq!((number, second.last_heartbeat()), (2, 2));
}

#[test]
fn radio_config_link_is_announced_where_asked_for() {
    let wait = AnnounceAction::Wait { seconds: 5 };
    let mut quiet = ground_control(None, false).run(DESTINATION, 0);
    assert_eq!(quiet.announce_step(AnnounceEvent::Begin), AnnounceAction::Announce);
    assert_eq!(quiet.announce_step(AnnounceEvent::Announced), wait);
    let mut asked = ground_control(None, true).run(DESTINATION, 0);
    for _ in 0..3 {
        assert_eq!(asked.announce_step(AnnounceEvent::Waited), AnnounceAction::Announce);
        assert_eq!(
            asked.announce_step(AnnounceEvent::Announced),
            AnnounceAction::AnnounceRadioConfig
        );
        assert_eq!(asked.announce_step(AnnounceEvent::RadioConfigAnnounced), wait);
    }
}
