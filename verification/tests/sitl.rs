use rns_mavlink::link::{AddressHash, LinkEvent, LinkLoopEvent};
use rns_mavlink::radio::{ping_step, PingAction, PingEvent};
use rns_mavlink::sitl::{AnnounceAction, LinkAction, Sitl, SocketAction, SocketEvent};

const SERVER: AddressHash = AddressHash(0x5285c511344e3b5b3a765229554e4da9);
const ELSEWHERE: AddressHash = AddressHash(3);
const PASS: AnnounceAction = AnnounceAction { create: false, rest: false };
const CREATE: AnnounceAction = AnnounceAction { create: true, rest: false };

fn event(address: AddressHash, event: LinkEvent) -> LinkLoopEvent {
    LinkLoopEvent::Link { address, id: AddressHash(4), event }
}

#[test]
fn simulator_waits_for_a_link() {
    let mut sitl = Sitl::run(SERVER);
    let begin = sitl.socket_step(SocketEvent::Begin);
    assert!(matches!(begin, SocketAction::Wait { millis: 100 }));
    assert_eq!(sitl.announced(ELSEWHERE), PASS);
    assert!(matches!(sitl.socket_step(SocketEvent::Waited), SocketAction::Wait { .. }));
    assert_eq!(sitl.announced(SERVER), CREATE);
    assert_eq!(sitl.announced(SERVER), CREATE);
    assert!(matches!(sitl.socket_step(SocketEvent::Waited), SocketAction::Receive));
    assert!(matches!(
        sitl.socket_step(SocketEvent::Datagram(vec![1, 2])),
        SocketAction::Send(data) if data == vec![1, 2]
    ));
    assert!(matches!(sitl.socket_step(SocketEvent::Sent), SocketAction::Receive));
    assert!(matches!(sitl.socket_step(SocketEvent::ReceiveFailed), SocketAction::Receive));
}

#[test]
fn link_closed_before_it_is_held_is_forgotten() {
    let mut sitl = Sitl::run(SERVER);
    sitl.announced(SERVER);
    assert!(matches!(sitl.link_step(event(ELSEWHERE, LinkEvent::Closed)), LinkAction::Receive));
    assert!(matches!(sitl.link_step(event(SERVER, LinkEvent::Closed)), LinkAction::Receive));
    assert!(matches!(sitl.socket_step(SocketEvent::Waited), SocketAction::Wait { .. }));
    assert_eq!(sitl.announced(SERVER), CREATE);
    assert!(matches!(sitl.socket_step(SocketEvent::Waited), SocketAction::Receive));
}

#[test]
fn loops_that_need_a_held_link_wait_for_it() {
    let mut sitl = Sitl::run(SERVER);
    sitl.announced(SERVER);
    assert!(matches!(sitl.socket_step(SocketEvent::Waited), SocketAction::Receive));
    assert_eq!(sitl.announced(ELSEWHERE), PASS);
    assert_eq!(sitl.announced(SERVER), AnnounceAction { create: true, rest: true });
    assert_eq!(sitl.announced(SERVER), AnnounceAction { create: false, rest: true });
    assert!(matches!(
        sitl.link_step(event(SERVER, LinkEvent::Data(vec![1]))),
        LinkAction::Deliver(_)
    ));
    assert!(matches!(sitl.link_step(event(ELSEWHERE, LinkEvent::Closed)), LinkAction::Receive));
    assert!(matches!(sitl.link_step(event(SERVER, LinkEvent::Closed)), LinkAction::Rest));
    assert!(matches!(
        sitl.link_step(event(SERVER, LinkEvent::Data(vec![1]))),
        LinkAction::Rest
    ));
    assert!(matches!(
        sitl.socket_step(SocketEvent::Datagram(vec![9])),
        SocketAction::Send(data) if data == vec![9]
    ));
}

#[test]
fn server_data_goes_to_the_simulator() {
    let mut sitl = Sitl::run(SERVER);
    assert!(matches!(
        sitl.link_step(event(SERVER, LinkEvent::Data(vec![6]))),
        LinkAction::Deliver(payload) if payload == vec![6]
    ));
    let foreign = sitl.link_step(event(ELSEWHERE, LinkEvent::Data(vec![6])));
    assert!(matches!(foreign, LinkAction::Receive));
    let activated = sitl.link_step(event(SERVER, LinkEvent::Activated));
    assert!(matches!(activated, LinkAction::Receive));
    assert!(matches!(sitl.link_step(LinkLoopEvent::Delivered), LinkAction::Receive));
    assert!(matches!(sitl.link_step(LinkLoopEvent::DeliveryFailed), LinkAction::Stop));
    assert!(matches!(sitl.link_step(LinkLoopEvent::Lagged), LinkAction::Stop));
    assert!(matches!(sitl.link_step(LinkLoopEvent::Broken), LinkAction::Stop));
}

#[test]
fn radio_is_pinged_where_there_is_one() {
    let wait = PingAction::Wait { seconds: 10 };
    assert_eq!(ping_step(true, PingEvent::Begin), PingAction::Ping);
    assert_eq!(ping_step(true, PingEvent::Answered), wait);
    assert_eq!(ping_step(true, PingEvent::Waited), PingAction::Ping);
    assert_eq!(ping_step(true, PingEvent::Failed), PingAction::Stop);
    assert_eq!(ping_step(false, PingEvent::Begin), wait);
    assert_eq!(ping_step(false, PingEvent::Waited), wait);
}
