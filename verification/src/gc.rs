//! The ground control side of the bridge: it looks for the ground station on
//! the network, and passes data between the station and the data link.

use crate::heartbeat::{heartbeat, heartbeat_frame, next_sequence};
use crate::link::{AddressHash, LinkEvent, LinkId, LinkLoopEvent, LinkStatus};
use vstd::prelude::*;

verus! {

/// The configuration file.
pub const CONFIG_PATH: &'static str = "Gc.toml";

/// Seconds to wait before trying again while the network cannot be reached.
pub const NETWORK_RETRY_SECONDS: u64 = 4;

/// Milliseconds that a host has to answer a heartbeat.
pub const REPLY_TIMEOUT_MILLIS: u64 = 50;

/// Seconds of silence after which the ground station counts as disconnected.
pub const GROUND_STATION_TIMEOUT_SECONDS: u64 = 10;

/// The first host of the subnet that is tried.
pub const FIRST_HOST: u8 = 2;

/// The last host of the subnet that is tried.
pub const LAST_HOST: u8 = 254;

/// Seconds between two announces when the configuration gives none.
pub fn default_announce_interval_seconds() -> (seconds: u64)
    ensures
        seconds == 5,
{
    5
}

/// The four bytes of an address.
#[derive(Debug, Clone, Copy, PartialEq, Eq, Structural)]
pub struct Ipv4Address {
    pub a: u8,
    pub b: u8,
    pub c: u8,
    pub d: u8,
}

/// An address and a port.
#[derive(Debug, Clone, Copy, PartialEq, Eq, Structural)]
pub struct SocketAddress {
    pub ip: Ipv4Address,
    pub port: u16,
}

/// The configuration of the ground control side.
#[derive(Debug)]
pub struct Config {
    pub log_level: String,
    pub log_throughput: bool,
    /// Where the ground station is, if that is known.
    pub gc_udp_address: Option<Ipv4Address>,
    /// The network to look for the ground station on, if it is not.
    pub gc_udp_subnet: Ipv4Address,
    pub gc_udp_port: u16,
    pub gc_reply_port: u16,
    pub announce_interval_seconds: u64,
    pub fc_destination: String,
    pub radio_module: usize,
    /// Whether to announce radio config link
    pub radio_config_link: bool,
}

/// The ground control side before it runs.
#[derive(Debug)]
pub struct Gc {
    pub config: Config,
    /// Whether there is a radio to keep alive by pings.
    pub radio_client: bool,
}

/// Where the search for the ground station stands.
#[derive(Debug, Clone, Copy, PartialEq, Eq, Structural)]
pub enum Phase {
    /// Nothing has been done yet.
    Start,
    /// A heartbeat is on its way to the configured address.
    Contacting,
    /// The network cannot be reached; the configured address is tried again.
    Unreachable,
    /// A heartbeat is on its way to a host of the subnet.
    Probing(u8),
    /// A host of the subnet has time to answer.
    AwaitingReply(u8),
    /// The ground station is known and can send at any time.
    Listening,
    /// What the ground station sent is being passed on.
    Forwarding,
    /// The search has been given up.
    Stopped,
}

/// What the loop around the socket is told.
#[derive(Debug)]
pub enum SocketEvent {
    Begin,
    /// The heartbeat has been sent.
    Sent,
    /// The heartbeat could not be sent: the network cannot be reached.
    NetworkUnreachable,
    /// The heartbeat could not be sent for another reason.
    SendFailed,
    /// The wait is over.
    Waited,
    /// Somebody answered from this address.
    Reply(SocketAddress),
    /// Nobody answered in time.
    NoReply,
    Datagram(Vec<u8>),
    ReceiveFailed,
    /// The data has been passed on, or could not be.
    Forwarded,
    /// Nothing came in time.
    Silence,
}

/// What the loop around the socket does next.
#[derive(Debug)]
pub enum SocketAction {
    SendHeartbeat { bytes: Vec<u8>, to: SocketAddress },
    Wait { seconds: u64 },
    AwaitReply { millis: u64 },
    Receive { seconds: u64 },
    /// Count the data, and send it over the link where there is one; count the
    /// packet sent where `count` says so.
    Forward { data: Vec<u8>, link: Option<LinkId>, count: bool },
    Stop,
}

/// What the loop that waits for link events does next.
#[derive(Debug)]
pub enum LinkAction {
    Receive,
    /// Send the payload to the ground station; where that succeeds, count the
    /// packet if `count` says so.
    Deliver { payload: Vec<u8>, to: SocketAddress, count: bool },
    Stop,
}

/// What the loop that sends announces is told.
#[derive(Debug, Clone, Copy, PartialEq, Eq, Structural)]
pub enum AnnounceEvent {
    Begin,
    /// The announce of the data link has been sent.
    Announced,
    /// The announce of the radio config link has been sent.
    RadioConfigAnnounced,
    /// The wait is over.
    Waited,
    /// The link was looked up. There is no state where it could not be found.
    Found { id: LinkId, status: Option<LinkStatus> },
}

/// What the loop that sends announces does next.
#[derive(Debug, Clone, Copy, PartialEq, Eq, Structural)]
pub enum AnnounceAction {
    /// Announce the destination of the data link.
    Announce,
    /// Announce the destination of the radio config link.
    AnnounceRadioConfig,
    Wait { seconds: u64 },
    LookUp(LinkId),
}

/// The ground control side while it runs.
#[derive(Debug)]
pub struct Bridge {
    log_throughput: bool,
    announce_interval_seconds: u64,
    radio_config_link: bool,
    configured: Option<Ipv4Address>,
    subnet: Ipv4Address,
    port: u16,
    destination: AddressHash,
    phase: Phase,
    sequence: u8,
    ground_station: Option<SocketAddress>,
    data_link: Option<LinkId>,
}

/// The state of a [`Bridge`].
pub struct BridgeView {
    pub log_throughput: bool,
    pub announce_interval_seconds: u64,
    /// Whether to announce radio config link
    pub radio_config_link: bool,
    pub configured: Option<Ipv4Address>,
    pub subnet: Ipv4Address,
    pub port: u16,
    /// The destination whose links carry the data.
    pub destination: AddressHash,
    pub phase: Phase,
    /// The number of the last heartbeat.
    pub sequence: u8,
    /// Where the ground station is.
    pub ground_station: Option<SocketAddress>,
    /// The link over which data goes to the flight controller.
    pub data_link: Option<LinkId>,
}

/// The host that is tried after `host`.
pub open spec fn next_host(host: u8) -> u8 {
    if host == LAST_HOST {
        FIRST_HOST
    } else {
        (host + 1) as u8
    }
}

/// Whether a loop in this phase can be told this.
pub open spec fn expects(phase: Phase, event: SocketEvent) -> bool {
    match phase {
        Phase::Start => event is Begin,
        Phase::Contacting | Phase::Probing(_) => event is Sent || event is NetworkUnreachable
            || event is SendFailed,
        Phase::Unreachable => event is Waited,
        Phase::AwaitingReply(_) => event is Reply || event is NoReply,
        Phase::Listening => event is Datagram || event is ReceiveFailed || event is Silence,
        Phase::Forwarding => event is Forwarded,
        Phase::Stopped => false,
    }
}

impl BridgeView {
    /// The phase in which the search for the ground station starts.
    pub open spec fn search_phase(self) -> Phase {
        match self.configured {
            Some(_) => Phase::Contacting,
            None => Phase::Probing(FIRST_HOST),
        }
    }

    /// The phase after an event that the current phase expects.
    pub open spec fn next_phase(self, event: SocketEvent) -> Phase {
        match (self.phase, event) {
            (Phase::Start, _) => self.search_phase(),
            (Phase::Contacting, SocketEvent::Sent) => Phase::Listening,
            (Phase::Contacting, SocketEvent::NetworkUnreachable) => Phase::Unreachable,
            (Phase::Unreachable, _) => self.search_phase(),
            (Phase::Probing(host), SocketEvent::Sent) => Phase::AwaitingReply(host),
            (Phase::Probing(host), SocketEvent::NetworkUnreachable) => Phase::AwaitingReply(host),
            (Phase::AwaitingReply(_), SocketEvent::Reply(_)) => Phase::Listening,
            (Phase::AwaitingReply(host), _) => Phase::Probing(next_host(host)),
            (Phase::Listening, SocketEvent::Silence) => self.search_phase(),
            (Phase::Listening, SocketEvent::Datagram(data)) => if data@.len() == 0 {
                Phase::Listening
            } else {
                Phase::Forwarding
            },
            (Phase::Listening, _) => Phase::Listening,
            (Phase::Forwarding, _) => Phase::Listening,
            _ => Phase::Stopped,
        }
    }

    /// The address of the ground station after an event.
    pub open spec fn next_ground_station(self, event: SocketEvent) -> Option<SocketAddress> {
        match (self.phase, event) {
            (Phase::Contacting, SocketEvent::Sent) => self.heartbeat_target(Phase::Contacting),
            (Phase::AwaitingReply(_), SocketEvent::Reply(peer)) => Some(peer),
            (Phase::Listening, SocketEvent::Silence) => None,
            _ => self.ground_station,
        }
    }

    /// Where a heartbeat goes in this phase: to the configured address, or to
    /// one host after the other of the subnet.
    pub open spec fn heartbeat_target(self, phase: Phase) -> Option<SocketAddress> {
        match (phase, self.configured) {
            (Phase::Contacting, Some(ip)) => Some(SocketAddress { ip, port: self.port }),
            (Phase::Probing(host), _) => Some(
                SocketAddress { ip: Ipv4Address { d: host, ..self.subnet }, port: self.port },
            ),
            _ => None,
        }
    }

    /// The state after an event that the current phase expects.
    pub open spec fn next(self, event: SocketEvent) -> BridgeView {
        let phase = self.next_phase(event);
        BridgeView {
            phase,
            ground_station: self.next_ground_station(event),
            sequence: match phase {
                Phase::Contacting | Phase::Probing(_) => next_sequence(self.sequence),
                _ => self.sequence,
            },
            ..self
        }
    }

    /// The data link after an event on link `id` of the destination `address`.
    pub open spec fn next_data_link(
        self,
        address: AddressHash,
        id: LinkId,
        event: LinkEvent,
    ) -> Option<LinkId> {
        if address != self.destination {
            self.data_link
        } else {
            match event {
                LinkEvent::Activated => Some(id),
                LinkEvent::Closed => None,
                _ => self.data_link,
            }
        }
    }

    /// What the loop that waits for link events does after an event.
    pub open spec fn link_action(self, event: LinkLoopEvent) -> LinkAction {
        match (event, self.ground_station) {
            (
                LinkLoopEvent::Link { address, id, event: LinkEvent::Data(payload) },
                Some(to),
            ) if address == self.destination => LinkAction::Deliver {
                payload,
                to,
                count: self.log_throughput,
            },
            (LinkLoopEvent::DeliveryFailed, _) => LinkAction::Stop,
            (LinkLoopEvent::Broken, _) => LinkAction::Stop,
            _ => LinkAction::Receive,
        }
    }

    /// What the loop that sends announces does after an event.
    pub open spec fn announce_action(self, event: AnnounceEvent) -> AnnounceAction {
        match event {
            AnnounceEvent::Begin => AnnounceAction::Announce,
            AnnounceEvent::Announced if self.radio_config_link =>
                AnnounceAction::AnnounceRadioConfig,
            AnnounceEvent::Announced | AnnounceEvent::RadioConfigAnnounced =>
                AnnounceAction::Wait { seconds: self.announce_interval_seconds },
            AnnounceEvent::Waited => match self.data_link {
                Some(id) => AnnounceAction::LookUp(id),
                None => AnnounceAction::Announce,
            },
            AnnounceEvent::Found { id, status } => AnnounceAction::Announce,
        }
    }

    /// The state after link `id` was looked up: if it is the data link and not
    /// open any more, there is none now.
    pub open spec fn after_lookup(self, id: LinkId, status: Option<LinkStatus>) -> BridgeView {
        if self.data_link == Some(id) && (status matches Some(status) && !status.open()) {
            BridgeView { data_link: None, ..self }
        } else {
            self
        }
    }

    /// The ground station is known exactly while data from it is awaited or
    /// passed on, only hosts of the subnet are tried, and the configured
    /// address is contacted only where there is one.
    pub open spec fn wf(self) -> bool {
        &&& self.ground_station is Some <==> (self.phase == Phase::Listening || self.phase
            == Phase::Forwarding)
        &&& self.phase matches Phase::Probing(host) ==> FIRST_HOST <= host <= LAST_HOST
        &&& self.phase matches Phase::AwaitingReply(host) ==> FIRST_HOST <= host <= LAST_HOST
        &&& self.phase == Phase::Contacting ==> self.configured is Some
    }
}

impl View for Bridge {
    type V = BridgeView;

    closed spec fn view(&self) -> BridgeView {
        BridgeView {
            log_throughput: self.log_throughput,
            announce_interval_seconds: self.announce_interval_seconds,
            radio_config_link: self.radio_config_link,
            configured: self.configured,
            subnet: self.subnet,
            port: self.port,
            destination: self.destination,
            phase: self.phase,
            sequence: self.sequence,
            ground_station: self.ground_station,
            data_link: self.data_link,
        }
    }
}

/// Whether an action is the one of the phase that `after` is in. The data of a
/// datagram is passed on unchanged, over the link known at the time.
pub open spec fn action_of(after: BridgeView, event: SocketEvent, action: SocketAction) -> bool {
    match after.phase {
        Phase::Contacting | Phase::Probing(_) => {
            &&& action matches SocketAction::SendHeartbeat { bytes, to }
            &&& bytes@ == heartbeat_frame(after.sequence)
            &&& Some(to) == after.heartbeat_target(after.phase)
        },
        Phase::Unreachable => action == (SocketAction::Wait { seconds: NETWORK_RETRY_SECONDS }),
        Phase::AwaitingReply(_) => action == (SocketAction::AwaitReply {
            millis: REPLY_TIMEOUT_MILLIS,
        }),
        Phase::Listening => action == (SocketAction::Receive {
            seconds: GROUND_STATION_TIMEOUT_SECONDS,
        }),
        Phase::Forwarding => {
            &&& event matches SocketEvent::Datagram(received)
            &&& action matches SocketAction::Forward { data, link, count }
            &&& data == received
            &&& link == after.data_link
            &&& count == after.log_throughput
        },
        Phase::Start | Phase::Stopped => action is Stop,
    }
}

impl Gc {
    /// The ground control side with its configuration.
    pub fn new(config: Config, radio_client: bool) -> (gc: Self)
        ensures
            gc.config == config,
            gc.radio_client == radio_client,
    {
        Gc { config, radio_client }
    }

    /// Starts a run that takes its data from links of `data_destination`. Its
    /// heartbeats are numbered on from `last_heartbeat`, the number of the last
    /// one that was sent before, or zero.
    pub fn run(&self, data_destination: AddressHash, last_heartbeat: u8) -> (bridge: Bridge)
        ensures
            bridge@ == (BridgeView {
                log_throughput: self.config.log_throughput,
                announce_interval_seconds: self.config.announce_interval_seconds,
                radio_config_link: self.config.radio_config_link,
                configured: self.config.gc_udp_address,
                subnet: self.config.gc_udp_subnet,
                port: self.config.gc_udp_port,
                destination: data_destination,
                phase: Phase::Start,
                sequence: last_heartbeat,
                ground_station: None,
                data_link: None,
            }),
            bridge@.wf(),
    {
        Bridge {
            log_throughput: self.config.log_throughput,
            announce_interval_seconds: self.config.announce_interval_seconds,
            radio_config_link: self.config.radio_config_link,
            configured: self.config.gc_udp_address,
            subnet: self.config.gc_udp_subnet,
            port: self.config.gc_udp_port,
            destination: data_destination,
            phase: Phase::Start,
            sequence: last_heartbeat,
            ground_station: None,
            data_link: None,
        }
    }
}

impl Bridge {
    #[verifier::type_invariant]
    spec fn inv(self) -> bool {
        self@.wf()
    }

    /// The phase of the loop around the socket.
    pub fn phase(&self) -> (phase: Phase)
        ensures
            phase == self@.phase,
    {
        self.phase
    }

    /// The data link, where there is one.
    pub fn data_link(&self) -> (link: Option<LinkId>)
        ensures
            link == self@.data_link,
    {
        self.data_link
    }

    /// The number of the last heartbeat.
    pub fn last_heartbeat(&self) -> (sequence: u8)
        ensures
            sequence == self@.sequence,
    {
        self.sequence
    }

    /// Whether the loop around the socket can be told this now.
    pub fn accepts(&self, event: &SocketEvent) -> (expected: bool)
        ensures
            expected == expects(self@.phase, *event),
    {
        match (self.phase, event) {
            (Phase::Start, SocketEvent::Begin) => true,
            (Phase::Contacting | Phase::Probing(_), SocketEvent::Sent) => true,
            (Phase::Contacting | Phase::Probing(_), SocketEvent::NetworkUnreachable) => true,
            (Phase::Contacting | Phase::Probing(_), SocketEvent::SendFailed) => true,
            (Phase::Unreachable, SocketEvent::Waited) => true,
            (Phase::AwaitingReply(_), SocketEvent::Reply(_)) => true,
            (Phase::AwaitingReply(_), SocketEvent::NoReply) => true,
            (Phase::Listening, SocketEvent::Datagram(_)) => true,
            (Phase::Listening, SocketEvent::ReceiveFailed) => true,
            (Phase::Listening, SocketEvent::Silence) => true,
            (Phase::Forwarding, SocketEvent::Forwarded) => true,
            _ => false,
        }
    }

    /// Goes on in another phase, with what is known of the ground station then
    /// and with the number of the last heartbeat.
    fn enter(&mut self, phase: Phase, ground_station: Option<SocketAddress>, sequence: u8)
        requires
            (BridgeView { phase, ground_station, sequence, ..old(self)@ }).wf(),
        ensures
            final(self)@ == (BridgeView { phase, ground_station, sequence, ..old(self)@ }),
    {
        *self = Bridge {
            log_throughput: self.log_throughput,
            announce_interval_seconds: self.announce_interval_seconds,
            radio_config_link: self.radio_config_link,
            configured: self.configured,
            subnet: self.subnet,
            port: self.port,
            destination: self.destination,
            phase,
            sequence,
            ground_station,
            data_link: self.data_link,
        };
    }

    /// Makes a heartbeat for an address and enters the phase in which it is on
    /// its way. The ground station is not known then.
    fn send_heartbeat(&mut self, phase: Phase, to: SocketAddress) -> (action: SocketAction)
        requires
            (BridgeView { phase, ground_station: None, ..old(self)@ }).wf(),
        ensures
            final(self)@ == (BridgeView {
                phase,
                ground_station: None,
                sequence: next_sequence(old(self)@.sequence),
                ..old(self)@
            }),
            action matches SocketAction::SendHeartbeat { bytes, to: target } && bytes@
                == heartbeat_frame(final(self)@.sequence) && target == to,
    {
        let mut sequence: u8 = self.sequence;
        match heartbeat(&mut sequence) {
            Ok(bytes) => {
                self.enter(phase, None, sequence);
                SocketAction::SendHeartbeat { bytes, to }
            },
            Err(_) => {
                self.enter(Phase::Stopped, None, sequence);
                SocketAction::Stop
            },
        }
    }

    /// Sends a heartbeat to a host of the subnet.
    fn probe(&mut self, host: u8) -> (action: SocketAction)
        requires
            FIRST_HOST <= host <= LAST_HOST,
        ensures
            final(self)@ == (BridgeView {
                phase: Phase::Probing(host),
                ground_station: None,
                sequence: next_sequence(old(self)@.sequence),
                ..old(self)@
            }),
            action matches SocketAction::SendHeartbeat { bytes, to } && bytes@ == heartbeat_frame(
                final(self)@.sequence,
            ) && Some(to) == old(self)@.heartbeat_target(Phase::Probing(host)),
    {
        let ip = Ipv4Address { a: self.subnet.a, b: self.subnet.b, c: self.subnet.c, d: host };
        self.send_heartbeat(Phase::Probing(host), SocketAddress { ip, port: self.port })
    }

    /// Starts the search for the ground station, which is not known then.
    fn search(&mut self) -> (action: SocketAction)
        ensures
            final(self)@ == (BridgeView {
                phase: old(self)@.search_phase(),
                ground_station: None,
                sequence: next_sequence(old(self)@.sequence),
                ..old(self)@
            }),
            action matches SocketAction::SendHeartbeat { bytes, to } && bytes@ == heartbeat_frame(
                final(self)@.sequence,
            ) && Some(to) == old(self)@.heartbeat_target(old(self)@.search_phase()),
    {
        match self.configured {
            Some(ip) => self.send_heartbeat(
                Phase::Contacting,
                SocketAddress { ip, port: self.port },
            ),
            None => self.probe(FIRST_HOST),
        }
    }

    /// Waits for data from the ground station at this address.
    fn listen(&mut self, ground_station: SocketAddress) -> (action: SocketAction)
        ensures
            final(self)@ == (BridgeView {
                phase: Phase::Listening,
                ground_station: Some(ground_station),
                ..old(self)@
            }),
            action == (SocketAction::Receive { seconds: GROUND_STATION_TIMEOUT_SECONDS }),
    {
        self.enter(Phase::Listening, Some(ground_station), self.sequence);
        SocketAction::Receive { seconds: GROUND_STATION_TIMEOUT_SECONDS }
    }

    /// Tells the loop around the socket what happened; it says what to do next.
    pub fn socket_step(&mut self, event: SocketEvent) -> (action: SocketAction)
        requires
            expects(old(self)@.phase, event),
        ensures
            final(self)@ == old(self)@.next(event),
            final(self)@.wf(),
            action_of(final(self)@, event, action),
    {
        proof {
            use_type_invariant(&*self);
        }
        match (self.phase, event) {
            (Phase::Start, _) | (Phase::Unreachable, _) => self.search(),
            (Phase::Contacting, SocketEvent::Sent) => match self.configured {
                Some(ip) => self.listen(SocketAddress { ip, port: self.port }),
                None => self.search(),
            },
            (Phase::Contacting, SocketEvent::NetworkUnreachable) => {
                self.phase = Phase::Unreachable;
                SocketAction::Wait { seconds: NETWORK_RETRY_SECONDS }
            },
            (Phase::Probing(host), SocketEvent::Sent) | (
                Phase::Probing(host),
                SocketEvent::NetworkUnreachable,
            ) => {
                self.phase = Phase::AwaitingReply(host);
                SocketAction::AwaitReply { millis: REPLY_TIMEOUT_MILLIS }
            },
            (Phase::AwaitingReply(_), SocketEvent::Reply(peer)) => self.listen(peer),
            (Phase::AwaitingReply(host), _) => {
                let next: u8 = if host == LAST_HOST {
                    FIRST_HOST
                } else {
                    host + 1
                };
                self.probe(next)
            },
            (Phase::Listening, SocketEvent::Silence) => self.search(),
            (Phase::Listening, SocketEvent::Datagram(data)) => {
                if data.len() == 0 {
                    SocketAction::Receive { seconds: GROUND_STATION_TIMEOUT_SECONDS }
                } else {
                    self.phase = Phase::Forwarding;
                    SocketAction::Forward {
                        data,
                        link: self.data_link,
                        count: self.log_throughput,
                    }
                }
            },
            (Phase::Listening, _) => SocketAction::Receive {
                seconds: GROUND_STATION_TIMEOUT_SECONDS,
            },
            (Phase::Forwarding, _) => {
                self.phase = Phase::Listening;
                SocketAction::Receive { seconds: GROUND_STATION_TIMEOUT_SECONDS }
            },
            _ => {
                self.phase = Phase::Stopped;
                SocketAction::Stop
            },
        }
    }

    /// Tells the loop that waits for link events what happened; it says what to
    /// do next. Data goes to the ground station, or nowhere while that is not
    /// known; a link becomes the data link when it is activated, until one is
    /// closed. What happens on links of other destinations is passed over.
    pub fn link_step(&mut self, event: LinkLoopEvent) -> (action: LinkAction)
        ensures
            final(self)@ == (BridgeView {
                data_link: match event {
                    LinkLoopEvent::Link { address, id, event } => old(self)@.next_data_link(
                        address,
                        id,
                        event,
                    ),
                    _ => old(self)@.data_link,
                },
                ..old(self)@
            }),
            final(self)@.wf(),
            match event {
                LinkLoopEvent::Link {
                    address,
                    id,
                    event: LinkEvent::Data(payload),
                } if address == old(self)@.destination && old(self)@.ground_station is Some =>
                    action == (LinkAction::Deliver {
                        payload,
                        to: old(self)@.ground_station->0,
                        count: old(self)@.log_throughput,
                    }),
                LinkLoopEvent::DeliveryFailed | LinkLoopEvent::Broken => action is Stop,
                _ => action is Receive,
            },
            action == old(self)@.link_action(event),
    {
        proof {
            use_type_invariant(&*self);
        }
        match event {
            LinkLoopEvent::Link { address, id, event } => {
                if address == self.destination {
                    match event {
                        LinkEvent::Data(payload) => {
                            if let Some(to) = self.ground_station {
                                return LinkAction::Deliver {
                                    payload,
                                    to,
                                    count: self.log_throughput,
                                };
                            }
                        },
                        LinkEvent::Activated => {
                            self.data_link = Some(id);
                        },
                        LinkEvent::Closed => {
                            self.data_link = None;
                        },
                        LinkEvent::Proof => {},
                    }
                }
                LinkAction::Receive
            },
            LinkLoopEvent::Delivered | LinkLoopEvent::Lagged => LinkAction::Receive,
            LinkLoopEvent::DeliveryFailed | LinkLoopEvent::Broken => LinkAction::Stop,
        }
    }

    /// Tells the loop that sends announces what happened; it says what to do
    /// next. The radio config link is announced behind the data link, where that
    /// is asked for. After the announces and the wait behind them, the data link
    /// is looked up; a link that is not open any more is given up.
    pub fn announce_step(&mut self, event: AnnounceEvent) -> (action: AnnounceAction)
        ensures
            final(self)@ == match event {
                AnnounceEvent::Found { id, status } => old(self)@.after_lookup(id, status),
                _ => old(self)@,
            },
            final(self)@.wf(),
            action == old(self)@.announce_action(event),
    {
        proof {
            use_type_invariant(&*self);
        }
        match event {
            AnnounceEvent::Begin => AnnounceAction::Announce,
            AnnounceEvent::Announced => if self.radio_config_link {
                AnnounceAction::AnnounceRadioConfig
            } else {
                AnnounceAction::Wait { seconds: self.announce_interval_seconds }
            },
            AnnounceEvent::RadioConfigAnnounced => AnnounceAction::Wait {
                seconds: self.announce_interval_seconds,
            },
            AnnounceEvent::Waited => match self.data_link {
                Some(id) => AnnounceAction::LookUp(id),
                None => AnnounceAction::Announce,
            },
            AnnounceEvent::Found { id, status } => {
                if let (Some(link), Some(status)) = (self.data_link, status) {
                    if link == id && !status.is_open() {
                        self.data_link = None;
                    }
                }
                AnnounceAction::Announce
            },
        }
    }
}

/// What the loop that sends announces is told once it has done this, if the link
/// that it looked up was found in this state.
pub open spec fn announce_answer(
    action: AnnounceAction,
    status: Option<LinkStatus>,
) -> AnnounceEvent {
    match action {
        AnnounceAction::Announce => AnnounceEvent::Announced,
        AnnounceAction::AnnounceRadioConfig => AnnounceEvent::RadioConfigAnnounced,
        AnnounceAction::Wait { seconds } => AnnounceEvent::Waited,
        AnnounceAction::LookUp(id) => AnnounceEvent::Found { id, status },
    }
}

/// The loop that sends announces starts with one of the data link and goes round
/// for as long as the bridge runs: each announce of the data link is followed by
/// one of the radio config link exactly where that is asked for, then by one
/// wait of the configured length, and then, perhaps after a look at the data
/// link, by the next announce of the data link.
pub proof fn law_announces_go_round(
    bridge: BridgeView,
    later: BridgeView,
    status: Option<LinkStatus>,
)
    ensures
        bridge.announce_action(AnnounceEvent::Begin) == AnnounceAction::Announce,
        ({
            let wait = AnnounceAction::Wait { seconds: bridge.announce_interval_seconds };
            let announced = announce_answer(AnnounceAction::Announce, status);
            let second = bridge.announce_action(announced);
            &&& second is AnnounceRadioConfig <==> bridge.radio_config_link
            &&& second is AnnounceRadioConfig || second == wait
            &&& bridge.announce_action(
                announce_answer(AnnounceAction::AnnounceRadioConfig, status),
            ) == wait
            &&& {
                let third = later.announce_action(announce_answer(wait, status));
                ||| third == AnnounceAction::Announce
                ||| third is LookUp && later.announce_action(announce_answer(third, status))
                    == AnnounceAction::Announce
            }
        }),
{
}

/// The state after rounds of the search in which nobody answered. A round says
/// whether its heartbeat could be sent or the network could not be reached.
pub open spec fn after_silent_rounds(bridge: BridgeView, rounds: Seq<bool>) -> BridgeView
    decreases rounds.len(),
{
    if rounds.len() == 0 {
        bridge
    } else {
        let before = after_silent_rounds(bridge, rounds.drop_last());
        let sent = if rounds.last() {
            SocketEvent::Sent
        } else {
            SocketEvent::NetworkUnreachable
        };
        before.next(sent).next(SocketEvent::NoReply)
    }
}

/// The host that is reached from `host` after some steps.
pub open spec fn host_after(host: u8, steps: nat) -> u8 {
    (2 + (host - 2 + steps) % 253) as u8
}

/// One more step leads to the next host.
proof fn lemma_next_host(host: u8, steps: nat)
    requires
        FIRST_HOST <= host <= LAST_HOST,
    ensures
        FIRST_HOST <= host_after(host, steps) <= LAST_HOST,
        next_host(host_after(host, steps)) == host_after(host, steps + 1),
{
}

/// One more heartbeat has the next number.
proof fn lemma_next_number(sequence: u8, beats: nat)
    ensures
        next_sequence(((sequence + beats) % 256) as u8) == (sequence + beats + 1) % 256,
{
}

/// While nobody answers, the search goes through the hosts of the subnet one
/// after the other, starting over after the last, with one heartbeat each.
pub proof fn law_search_walks_the_subnet(bridge: BridgeView, host: u8, rounds: Seq<bool>)
    requires
        bridge.wf(),
        bridge.phase == Phase::Probing(host),
    ensures
        after_silent_rounds(bridge, rounds) == (BridgeView {
            phase: Phase::Probing(host_after(host, rounds.len())),
            sequence: ((bridge.sequence + rounds.len()) % 256) as u8,
            ..bridge
        }),
        after_silent_rounds(bridge, rounds).wf(),
    decreases rounds.len(),
{
    if rounds.len() > 0 {
        law_search_walks_the_subnet(bridge, host, rounds.drop_last());
        let done = (rounds.len() - 1) as nat;
        lemma_next_host(host, done);
        lemma_next_number(bridge.sequence, done);
    } else {
        assert(host_after(host, 0) == host);
    }
}

/// How many steps lead from one host to another.
proof fn lemma_steps_between(host: u8, wanted: u8, steps: nat)
    requires
        FIRST_HOST <= host <= LAST_HOST,
        FIRST_HOST <= wanted <= LAST_HOST,
        steps < 253,
    ensures
        host_after(host, steps) == wanted <==> steps == (wanted - host) % 253,
{
}

/// Every host of the subnet is tried before any is tried again: from any point
/// of the search, a host comes up after the same number of silent rounds, fewer
/// than there are hosts.
pub proof fn law_every_host_is_tried(bridge: BridgeView, host: u8, wanted: u8, rounds: Seq<bool>)
    requires
        bridge.wf(),
        bridge.phase == Phase::Probing(host),
        FIRST_HOST <= wanted <= LAST_HOST,
        rounds.len() < 253,
    ensures
        after_silent_rounds(bridge, rounds).phase == Phase::Probing(wanted) <==> rounds.len() == (
        wanted - host) % 253,
{
    law_search_walks_the_subnet(bridge, host, rounds);
    lemma_steps_between(host, wanted, rounds.len());
}

/// When the ground station falls silent it is forgotten, and the search starts
/// as at the beginning of the run.
pub proof fn law_silence_starts_over(bridge: BridgeView)
    requires
        bridge.phase == Phase::Listening,
    ensures
        bridge.next(SocketEvent::Silence) == (BridgeView {
            phase: Phase::Start,
            ground_station: None,
            ..bridge
        }).next(SocketEvent::Begin),
{
}

/// Something that happened on a link.
pub struct LinkReport {
    pub address: AddressHash,
    pub id: LinkId,
    pub event: LinkEvent,
}

impl LinkReport {
    /// Whether this sets or clears the data link of a bridge.
    pub open spec fn decides(self, destination: AddressHash) -> bool {
        self.address == destination && (self.event is Activated || self.event is Closed)
    }
}

/// The state after some events on links.
pub open spec fn after_link_reports(bridge: BridgeView, reports: Seq<LinkReport>) -> BridgeView
    decreases reports.len(),
{
    if reports.len() == 0 {
        bridge
    } else {
        let before = after_link_reports(bridge, reports.drop_last());
        let last = reports.last();
        BridgeView {
            data_link: before.next_data_link(last.address, last.id, last.event),
            ..before
        }
    }
}

/// The data link is the one of the destination that was activated last, and
/// there is none once a link of the destination was closed after that. Nothing
/// else that happens on links changes it.
pub proof fn law_last_deciding_report_sets_data_link(
    bridge: BridgeView,
    reports: Seq<LinkReport>,
    last: int,
)
    requires
        -1 <= last < reports.len(),
        last >= 0 ==> reports[last].decides(bridge.destination),
        forall|i: int| last < i < reports.len() ==> !reports[i].decides(bridge.destination),
    ensures
        after_link_reports(bridge, reports) == (BridgeView {
            data_link: if last < 0 {
                bridge.data_link
            } else if reports[last].event is Activated {
                Some(reports[last].id)
            } else {
                None
            },
            ..bridge
        }),
    decreases reports.len(),
{
    law_link_reports_keep_the_rest(bridge, reports);
    if reports.len() > 0 {
        let front = reports.drop_last();
        law_link_reports_keep_the_rest(bridge, front);
        if last < reports.len() - 1 {
            law_last_deciding_report_sets_data_link(bridge, front, last);
            assert(!reports[reports.len() - 1].decides(bridge.destination));
        }
    }
}

/// Events on links change nothing but the data link.
pub proof fn law_link_reports_keep_the_rest(bridge: BridgeView, reports: Seq<LinkReport>)
    ensures
        after_link_reports(bridge, reports) == (BridgeView {
            data_link: after_link_reports(bridge, reports).data_link,
            ..bridge
        }),
    decreases reports.len(),
{
    if reports.len() > 0 {
        law_link_reports_keep_the_rest(bridge, reports.drop_last());
    }
}

/// While host `d` of the subnet is tried, the heartbeat goes to the address with
/// the first three bytes of the subnet and `d` as the last, at the configured
/// port. A configured address is contacted as it is, at the same port.
pub proof fn law_heartbeats_go_into_the_subnet(bridge: BridgeView, d: u8)
    ensures
        bridge.heartbeat_target(Phase::Probing(d)) matches Some(to) && to.ip.a == bridge.subnet.a
            && to.ip.b == bridge.subnet.b && to.ip.c == bridge.subnet.c && to.ip.d == d && to.port
            == bridge.port,
        bridge.configured matches Some(ip) ==> bridge.heartbeat_target(Phase::Contacting)
            matches Some(to) && to.ip == ip && to.port == bridge.port,
{
}

/// At the start, after the wait for the network, and when the ground station has
/// fallen silent, a heartbeat with the next number goes to the configured address,
/// or to host 2 of the subnet where none is configured. Where the ground station
/// is is not known then.
pub proof fn law_search_starts_with_a_heartbeat(
    bridge: BridgeView,
    event: SocketEvent,
    action: SocketAction,
)
    requires
        bridge.phase !is Listening ==> bridge.ground_station is None,
        (bridge.phase is Start && event is Begin) || (bridge.phase is Unreachable
            && event is Waited) || (bridge.phase is Listening && event is Silence),
        action_of(bridge.next(event), event, action),
    ensures
        bridge.next(event).ground_station is None,
        bridge.next(event).sequence == (bridge.sequence + 1) % 256,
        action matches SocketAction::SendHeartbeat { bytes, to } && {
            &&& bytes@ == heartbeat_frame(bridge.next(event).sequence)
            &&& to.port == bridge.port
            &&& bridge.configured matches Some(ip) ==> to.ip == ip && bridge.next(
                event,
            ).phase is Contacting
            &&& bridge.configured is None ==> to.ip.a == bridge.subnet.a && to.ip.b
                == bridge.subnet.b && to.ip.c == bridge.subnet.c && to.ip.d == 2 && bridge.next(
                event,
            ).phase == Phase::Probing(2)
        },
{
}

/// A host that does not answer is followed by the next, and the last by the first:
/// a heartbeat with the next number goes there.
pub proof fn law_silent_host_is_followed_by_the_next(
    bridge: BridgeView,
    host: u8,
    action: SocketAction,
)
    requires
        bridge.phase == Phase::AwaitingReply(host),
        2 <= host <= 254,
        action_of(bridge.next(SocketEvent::NoReply), SocketEvent::NoReply, action),
    ensures
        ({
            let after = bridge.next(SocketEvent::NoReply);
            &&& after.sequence == (bridge.sequence + 1) % 256
            &&& after.ground_station == bridge.ground_station
            &&& action matches SocketAction::SendHeartbeat { bytes, to } && {
                &&& bytes@ == heartbeat_frame(after.sequence)
                &&& to.ip.a == bridge.subnet.a && to.ip.b == bridge.subnet.b && to.ip.c
                    == bridge.subnet.c
                &&& host < 254 ==> to.ip.d == host + 1
                &&& host == 254 ==> to.ip.d == 2
                &&& to.port == bridge.port
                &&& after.phase == Phase::Probing(to.ip.d)
            }
        }),
{
}

/// A heartbeat that went out to the configured address makes the ground station
/// known there, without an answer; one that went out to a host of the subnet, or
/// would have if the network could be reached, gives that host fifty milliseconds
/// to answer. While the network cannot be reached, the configured address is left
/// alone for four seconds. Any other failure ends the search.
pub proof fn law_heartbeat_is_followed_up(
    bridge: BridgeView,
    event: SocketEvent,
    action: SocketAction,
)
    requires
        bridge.ground_station is None,
        bridge.phase is Contacting ==> bridge.configured is Some,
        bridge.phase is Contacting || bridge.phase is Probing,
        event is Sent || event is NetworkUnreachable || event is SendFailed,
        action_of(bridge.next(event), event, action),
    ensures
        bridge.next(event).sequence == bridge.sequence,
        event is SendFailed ==> action is Stop && bridge.next(event).phase is Stopped,
        bridge.phase is Contacting && event is Sent ==> {
            &&& bridge.next(event).phase is Listening
            &&& bridge.next(event).ground_station matches Some(at) && bridge.configured == Some(
                at.ip,
            ) && at.port == bridge.port
            &&& action == (SocketAction::Receive { seconds: 10 })
        },
        bridge.phase is Contacting && event is NetworkUnreachable ==> {
            &&& bridge.next(event).phase is Unreachable
            &&& bridge.next(event).ground_station is None
            &&& action == (SocketAction::Wait { seconds: 4 })
        },
        bridge.phase matches Phase::Probing(host) && event !is SendFailed ==> {
            &&& bridge.next(event).phase == Phase::AwaitingReply(bridge.phase->Probing_0)
            &&& bridge.next(event).ground_station is None
            &&& action == (SocketAction::AwaitReply { millis: 50 })
        },
{
}

/// Whoever answers is the ground station from then on, whichever host was tried,
/// and is listened to.
pub proof fn law_reply_makes_the_station_known(
    bridge: BridgeView,
    peer: SocketAddress,
    action: SocketAction,
)
    requires
        bridge.phase is AwaitingReply,
        action_of(bridge.next(SocketEvent::Reply(peer)), SocketEvent::Reply(peer), action),
    ensures
        bridge.next(SocketEvent::Reply(peer)) == (BridgeView {
            phase: Phase::Listening,
            ground_station: Some(peer),
            ..bridge
        }),
        action == (SocketAction::Receive { seconds: 10 }),
{
}

/// Every datagram of the ground station that holds anything is passed on as it
/// came, whatever its length, over the data link of that moment. An empty one is
/// passed over.
pub proof fn law_datagrams_are_forwarded(bridge: BridgeView, data: Vec<u8>, action: SocketAction)
    requires
        bridge.phase is Listening,
        action_of(bridge.next(SocketEvent::Datagram(data)), SocketEvent::Datagram(data), action),
    ensures
        data@.len() > 0 ==> {
            &&& bridge.next(SocketEvent::Datagram(data)) == (BridgeView {
                phase: Phase::Forwarding,
                ..bridge
            })
            &&& action == (SocketAction::Forward {
                data,
                link: bridge.data_link,
                count: bridge.log_throughput,
            })
        },
        data@.len() == 0 ==> bridge.next(SocketEvent::Datagram(data)) == bridge && action == (
        SocketAction::Receive { seconds: 10 }),
{
}

/// After data was passed on, and after an error, the ground station is listened to
/// as before.
pub proof fn law_listening_goes_on(bridge: BridgeView, event: SocketEvent, action: SocketAction)
    requires
        (bridge.phase is Forwarding && event is Forwarded) || (bridge.phase is Listening
            && event is ReceiveFailed),
        action_of(bridge.next(event), event, action),
    ensures
        bridge.next(event) == (BridgeView { phase: Phase::Listening, ..bridge }),
        action == (SocketAction::Receive { seconds: 10 }),
{
}

/// What the loop around the socket is told changes neither the configuration nor
/// the data link.
pub proof fn law_socket_events_keep_the_rest(bridge: BridgeView, event: SocketEvent)
    ensures
        bridge.next(event) == (BridgeView {
            phase: bridge.next(event).phase,
            sequence: bridge.next(event).sequence,
            ground_station: bridge.next(event).ground_station,
            ..bridge
        }),
{
}

/// Each event has its time: the beginning comes once, at the start; how a heartbeat
/// went, while one is on its way; an answer or none, while one is awaited; the end
/// of a wait, while the network cannot be reached; a datagram, an error or silence,
/// while the ground station is listened to; and the end of passing on, during it.
pub proof fn law_events_have_their_time(phase: Phase, event: SocketEvent)
    ensures
        expects(phase, event) == match event {
            SocketEvent::Begin => phase is Start,
            SocketEvent::Sent
            | SocketEvent::NetworkUnreachable
            | SocketEvent::SendFailed => phase is Contacting || phase is Probing,
            SocketEvent::Waited => phase is Unreachable,
            SocketEvent::Reply(_) | SocketEvent::NoReply => phase is AwaitingReply,
            SocketEvent::Datagram(_)
            | SocketEvent::ReceiveFailed
            | SocketEvent::Silence => phase is Listening,
            SocketEvent::Forwarded => phase is Forwarding,
        },
{
}

/// On links of the destination, activation makes that link the data link, closing
/// leaves none, and nothing else has any effect; neither has anything on links of
/// other destinations.
pub proof fn law_link_events_set_the_data_link(
    bridge: BridgeView,
    address: AddressHash,
    id: LinkId,
    event: LinkEvent,
)
    ensures
        ({
            let after = bridge.next_data_link(address, id, event);
            &&& address == bridge.destination && event is Activated ==> after == Some(id)
            &&& address == bridge.destination && event is Closed ==> after is None
            &&& address != bridge.destination || event is Data || event is Proof ==> after
                == bridge.data_link
        }),
{
}

/// The data link is given up when it is found pending, in handshake or closed. It
/// is kept when it is found active or stale, when it cannot be found, and when the
/// link that was looked up is another one. Nothing else changes.
pub proof fn law_lookup_gives_up_what_is_not_open(
    bridge: BridgeView,
    id: LinkId,
    status: Option<LinkStatus>,
)
    ensures
        ({
            let after = bridge.after_lookup(id, status);
            let lost = status == Some(LinkStatus::Pending) || status == Some(LinkStatus::Handshake)
                || status == Some(LinkStatus::Closed);
            &&& bridge.data_link == Some(id) && lost ==> after.data_link is None
            &&& bridge.data_link != Some(id) || !lost ==> after.data_link == bridge.data_link
            &&& after == (BridgeView { data_link: after.data_link, ..bridge })
        }),
{
}

/// After the wait, the data link is looked up where there is one; else, and after
/// the look, the data link is announced again. The wait is as long as configured,
/// and comes behind all announces.
pub proof fn law_announce_steps(bridge: BridgeView, id: LinkId, status: Option<LinkStatus>)
    ensures
        bridge.announce_action(AnnounceEvent::Begin) is Announce,
        bridge.radio_config_link ==> bridge.announce_action(
            AnnounceEvent::Announced,
        ) is AnnounceRadioConfig,
        !bridge.radio_config_link ==> bridge.announce_action(AnnounceEvent::Announced) == (
        AnnounceAction::Wait { seconds: bridge.announce_interval_seconds }),
        bridge.announce_action(AnnounceEvent::RadioConfigAnnounced) == (AnnounceAction::Wait {
            seconds: bridge.announce_interval_seconds,
        }),
        bridge.data_link == Some(id) ==> bridge.announce_action(AnnounceEvent::Waited)
            == AnnounceAction::LookUp(id),
        bridge.data_link is None ==> bridge.announce_action(AnnounceEvent::Waited) is Announce,
        bridge.announce_action(AnnounceEvent::Found { id, status }) is Announce,
{
}

/// The ground station is known exactly while it is listened to or what it sent is
/// passed on, and the hosts that are tried are those from 2 to 254.
pub proof fn law_what_holds_of_every_state(bridge: BridgeView)
    requires
        bridge.wf(),
    ensures
        bridge.ground_station is Some <==> bridge.phase is Listening || bridge.phase is Forwarding,
        bridge.phase matches Phase::Probing(host) ==> 2 <= host <= 254,
        bridge.phase matches Phase::AwaitingReply(host) ==> 2 <= host <= 254,
        bridge.phase is Contacting ==> bridge.configured is Some,
{
}

/// The configuration file of ground control.
pub proof fn law_gc_config_path()
    ensures
        CONFIG_PATH@ == "Gc.toml"@,
{
}

/// Every payload that comes over a link of the destination goes to the ground
/// station as it came, whatever it holds, while the ground station is known; and
/// to nobody while it is not. What comes over other links goes nowhere.
pub proof fn law_link_data_goes_to_the_ground_station(
    bridge: BridgeView,
    address: AddressHash,
    id: LinkId,
    payload: Vec<u8>,
)
    ensures
        ({
            let action = bridge.link_action(
                LinkLoopEvent::Link { address, id, event: LinkEvent::Data(payload) },
            );
            &&& address == bridge.destination && bridge.ground_station is Some ==> action == (
            LinkAction::Deliver {
                payload,
                to: bridge.ground_station->0,
                count: bridge.log_throughput,
            })
            &&& address != bridge.destination || bridge.ground_station is None
                ==> action is Receive
        }),
{
}

/// The loop for link events goes on whatever happens on links and after what it
/// missed; it ends when a payload cannot be delivered and when no events come.
pub proof fn law_link_loop_goes_on(bridge: BridgeView, event: LinkLoopEvent)
    ensures
        bridge.link_action(event) is Stop <==> event is DeliveryFailed || event is Broken,
        bridge.link_action(event) is Deliver ==> event is Link,
{
}

} // verus!
