//! A flight controller side for software in the loop: a simulator takes the
//! place of the serial port, and is reached over UDP.

use crate::link::{AddressHash, LinkEvent, LinkLoopEvent};
use vstd::prelude::*;

verus! {

/// The address hash of the server, in hexadecimal.
pub const SERVER_DESTINATION: &'static str = "5285c511344e3b5b3a765229554e4da9";

/// Where the simulator sends its data.
pub const LISTEN_ADDRESS: &'static str = "0.0.0.0:14550";

/// Where the simulator takes its data.
pub const SIMULATOR_ADDRESS: &'static str = "127.0.0.1:18570";

/// Milliseconds between two looks for a link.
pub const LINK_POLL_MILLIS: u64 = 100;

/// What the loop that waits for link events does next.
#[derive(Debug)]
pub enum LinkAction {
    Receive,
    /// Send the payload to the simulator.
    Deliver(Vec<u8>),
    /// Nothing, for as long as the bridge runs.
    Rest,
    Stop,
}

/// What the loop that waits for announces does next.
#[derive(Debug, Clone, Copy, PartialEq, Eq, Structural)]
pub struct AnnounceAction {
    /// Whether to create a link to the destination that announced itself.
    pub create: bool,
    /// Whether to do nothing after that, for as long as the bridge runs.
    pub rest: bool,
}

/// What the loop around the socket is told.
#[derive(Debug)]
pub enum SocketEvent {
    Begin,
    /// The wait is over.
    Waited,
    Datagram(Vec<u8>),
    ReceiveFailed,
    /// The data has been sent.
    Sent,
}

/// What the loop around the socket does next.
#[derive(Debug)]
pub enum SocketAction {
    Wait { millis: u64 },
    Receive,
    /// Send the data over all links.
    Send(Vec<u8>),
}

/// The bridge to the simulator while it runs.
///
/// The loop around the socket takes hold of the link when it starts to receive,
/// and never lets go of it. Another loop that needs the link after that waits
/// for it as long as the bridge runs.
#[derive(Debug)]
pub struct Sitl {
    server: AddressHash,
    linked: bool,
    held: bool,
    announces_rest: bool,
    links_rest: bool,
}

/// The state of a [`Sitl`].
pub struct SitlView {
    /// The destination of the server.
    pub server: AddressHash,
    /// Whether there is a link to the server.
    pub linked: bool,
    /// Whether the loop around the socket has taken hold of the link.
    pub held: bool,
    /// Whether the loop that waits for announces waits for the link.
    pub announces_rest: bool,
    /// Whether the loop that waits for link events waits for the link.
    pub links_rest: bool,
}

impl SitlView {
    /// Only a link that is there can be held, and only for a link that is held
    /// does anybody wait.
    pub open spec fn wf(self) -> bool {
        &&& self.held ==> self.linked
        &&& self.announces_rest || self.links_rest ==> self.held
    }

    /// The state after an announce. The link that is created for the server
    /// becomes the link of the bridge, unless another one is held.
    pub open spec fn after_announce(self, address: AddressHash) -> SitlView {
        if address != self.server || self.announces_rest {
            self
        } else if self.held {
            SitlView { announces_rest: true, ..self }
        } else {
            SitlView { linked: true, ..self }
        }
    }

    /// What the loop that waits for announces does after one.
    pub open spec fn announce_action(self, address: AddressHash) -> AnnounceAction {
        AnnounceAction {
            create: address == self.server && !self.announces_rest,
            rest: self.after_announce(address).announces_rest,
        }
    }

    /// What the loop around the socket does after an event.
    pub open spec fn socket_action(self, event: SocketEvent) -> SocketAction {
        match event {
            SocketEvent::Begin | SocketEvent::Waited => if self.linked {
                SocketAction::Receive
            } else {
                SocketAction::Wait { millis: LINK_POLL_MILLIS }
            },
            SocketEvent::Datagram(data) => SocketAction::Send(data),
            SocketEvent::ReceiveFailed | SocketEvent::Sent => SocketAction::Receive,
        }
    }

    /// What the loop that waits for link events does after an event.
    pub open spec fn link_action(self, event: LinkLoopEvent) -> LinkAction {
        match event {
            _ if self.links_rest => LinkAction::Rest,
            LinkLoopEvent::Link { address, id, event } => if address != self.server {
                LinkAction::Receive
            } else {
                match event {
                    LinkEvent::Data(payload) => LinkAction::Deliver(payload),
                    LinkEvent::Closed if self.held => LinkAction::Rest,
                    _ => LinkAction::Receive,
                }
            },
            LinkLoopEvent::Delivered => LinkAction::Receive,
            _ => LinkAction::Stop,
        }
    }

    /// The state after the loop around the socket was told something: when it
    /// looks for a link and there is one, it takes hold of it.
    pub open spec fn after_socket_event(self, event: SocketEvent) -> SitlView {
        SitlView {
            held: self.held || (self.linked && (event is Begin || event is Waited)),
            ..self
        }
    }

    /// The state after an event on a link of the destination `address`: there is
    /// no link when one of the server was closed, unless the link is held.
    pub open spec fn after_link_event(self, address: AddressHash, event: LinkEvent) -> SitlView {
        if address != self.server || event !is Closed || self.links_rest {
            self
        } else if self.held {
            SitlView { links_rest: true, ..self }
        } else {
            SitlView { linked: false, ..self }
        }
    }
}

impl View for Sitl {
    type V = SitlView;

    closed spec fn view(&self) -> SitlView {
        SitlView {
            server: self.server,
            linked: self.linked,
            held: self.held,
            announces_rest: self.announces_rest,
            links_rest: self.links_rest,
        }
    }
}

impl Sitl {
    #[verifier::type_invariant]
    spec fn inv(self) -> bool {
        self@.wf()
    }

    /// Starts a run for the server with this destination.
    pub fn run(server: AddressHash) -> (sitl: Self)
        ensures
            sitl@ == (SitlView {
                server,
                linked: false,
                held: false,
                announces_rest: false,
                links_rest: false,
            }),
    {
        Sitl { server, linked: false, held: false, announces_rest: false, links_rest: false }
    }

    /// Tells the loop that waits for announces who announced itself; it says what
    /// to do next. A link is created each time that the server announces itself.
    /// To put it in the place of one that is held, the loop would wait for ever.
    pub fn announced(&mut self, address: AddressHash) -> (action: AnnounceAction)
        ensures
            final(self)@ == old(self)@.after_announce(address),
            final(self)@.wf(),
            action == (AnnounceAction {
                create: address == old(self)@.server && !old(self)@.announces_rest,
                rest: final(self)@.announces_rest,
            }),
            action == old(self)@.announce_action(address),
    {
        proof {
            use_type_invariant(&*self);
        }
        if self.announces_rest {
            AnnounceAction { create: false, rest: true }
        } else if address != self.server {
            AnnounceAction { create: false, rest: false }
        } else {
            if self.held {
                self.announces_rest = true;
            } else {
                self.linked = true;
            }
            AnnounceAction { create: true, rest: self.announces_rest }
        }
    }

    /// Tells the loop around the socket what happened; it says what to do next.
    /// It waits for a link, and passes on what the simulator sends from then on.
    pub fn socket_step(&mut self, event: SocketEvent) -> (action: SocketAction)
        ensures
            final(self)@ == old(self)@.after_socket_event(event),
            final(self)@.wf(),
            action == match event {
                SocketEvent::Begin | SocketEvent::Waited => if old(self)@.linked {
                    SocketAction::Receive
                } else {
                    SocketAction::Wait { millis: LINK_POLL_MILLIS }
                },
                SocketEvent::Datagram(data) => SocketAction::Send(data),
                SocketEvent::ReceiveFailed | SocketEvent::Sent => SocketAction::Receive,
            },
            action == old(self)@.socket_action(event),
    {
        proof {
            use_type_invariant(&*self);
        }
        match event {
            SocketEvent::Begin | SocketEvent::Waited => if self.linked {
                self.held = true;
                SocketAction::Receive
            } else {
                SocketAction::Wait { millis: LINK_POLL_MILLIS }
            },
            SocketEvent::Datagram(data) => SocketAction::Send(data),
            SocketEvent::ReceiveFailed | SocketEvent::Sent => SocketAction::Receive,
        }
    }

    /// Tells the loop that waits for link events what happened; it says what to
    /// do next. Data of the server goes to the simulator. To forget a link that
    /// is held when one of the server was closed, the loop would wait for ever.
    pub fn link_step(&mut self, event: LinkLoopEvent) -> (action: LinkAction)
        ensures
            final(self)@ == match event {
                LinkLoopEvent::Link { address, id, event } => old(self)@.after_link_event(
                    address,
                    event,
                ),
                _ => old(self)@,
            },
            final(self)@.wf(),
            match event {
                _ if final(self)@.links_rest => action is Rest,
                LinkLoopEvent::Link {
                    address,
                    id,
                    event: LinkEvent::Data(payload),
                } if address == old(self)@.server => action == LinkAction::Deliver(payload),
                LinkLoopEvent::Link { address, id, event } => action is Receive,
                LinkLoopEvent::Delivered => action is Receive,
                LinkLoopEvent::DeliveryFailed | LinkLoopEvent::Lagged
                | LinkLoopEvent::Broken => action is Stop,
            },
            action == old(self)@.link_action(event),
    {
        proof {
            use_type_invariant(&*self);
        }
        if self.links_rest {
            return LinkAction::Rest;
        }
        match event {
            LinkLoopEvent::Link { address, id: _, event } => {
                if address == self.server {
                    match event {
                        LinkEvent::Data(payload) => {
                            return LinkAction::Deliver(payload);
                        },
                        LinkEvent::Closed => {
                            if self.held {
                                self.links_rest = true;
                                return LinkAction::Rest;
                            }
                            self.linked = false;
                        },
                        LinkEvent::Activated | LinkEvent::Proof => {},
                    }
                }
                LinkAction::Receive
            },
            LinkLoopEvent::Delivered => LinkAction::Receive,
            LinkLoopEvent::DeliveryFailed | LinkLoopEvent::Lagged | LinkLoopEvent::Broken =>
                LinkAction::Stop,
        }
    }
}

/// A link that is held stays held whatever happens, and a loop that waits for it
/// goes on waiting.
pub proof fn law_held_link_is_kept(
    sitl: SitlView,
    address: AddressHash,
    told: SocketEvent,
    event: LinkEvent,
)
    requires
        sitl.linked,
        sitl.held,
    ensures
        ({
            let announce = sitl.after_announce(address);
            let socket = sitl.after_socket_event(told);
            let link = sitl.after_link_event(address, event);
            &&& announce.held && announce.linked
            &&& socket == sitl
            &&& link.held && link.linked
            &&& sitl.announces_rest ==> announce.announces_rest && link.announces_rest
            &&& sitl.links_rest ==> announce.links_rest && link.links_rest
        }),
{
}

/// The server can always be linked to before a link is held: its announce makes
/// one, and the socket loop takes hold of it at its next look, at the start or
/// after a wait, and at no other time. Closing a link of the server that is not
/// held leaves none.
pub proof fn law_link_before_it_is_held(sitl: SitlView, told: SocketEvent)
    requires
        !sitl.held && !sitl.announces_rest && !sitl.links_rest,
    ensures
        sitl.after_announce(sitl.server) == (SitlView { linked: true, ..sitl }),
        sitl.after_link_event(sitl.server, LinkEvent::Closed) == (SitlView {
            linked: false,
            ..sitl
        }),
        sitl.after_socket_event(told).held <==> sitl.linked && (told is Begin || told is Waited),
{
}

/// Once the link is held, the next announce of the server puts the loop for
/// announces to rest, and the next closing of a link of the server that for link
/// events, and neither anything else.
pub proof fn law_who_comes_to_rest(
    sitl: SitlView,
    address: AddressHash,
    event: LinkEvent,
    told: SocketEvent,
)
    requires
        sitl.announces_rest || sitl.links_rest ==> sitl.held,
    ensures
        sitl.after_announce(address).announces_rest <==> sitl.announces_rest || (sitl.held
            && address == sitl.server),
        sitl.after_link_event(address, event).links_rest <==> sitl.links_rest || (sitl.held
            && address == sitl.server && event is Closed),
        sitl.after_announce(address).links_rest == sitl.links_rest,
        sitl.after_link_event(address, event).announces_rest == sitl.announces_rest,
        sitl.after_announce(address).held == sitl.held,
        sitl.after_link_event(address, event).held == sitl.held,
        ({
            let after = sitl.after_socket_event(told);
            after == (SitlView { held: after.held, ..sitl })
        }),
{
}

/// What other destinations announce and what happens on their links, and anything
/// but the closing of a link, leaves everything as it is.
pub proof fn law_others_do_not_matter(sitl: SitlView, address: AddressHash, event: LinkEvent)
    ensures
        address != sitl.server ==> sitl.after_announce(address) == sitl,
        address != sitl.server || event !is Closed ==> sitl.after_link_event(address, event)
            == sitl,
        sitl.after_announce(address).server == sitl.server,
        sitl.after_link_event(address, event).server == sitl.server,
{
}

/// Where the simulator and the server are.
pub proof fn law_addresses_of_the_simulator()
    ensures
        SERVER_DESTINATION@ == "5285c511344e3b5b3a765229554e4da9"@,
        LISTEN_ADDRESS@ == "0.0.0.0:14550"@,
        SIMULATOR_ADDRESS@ == "127.0.0.1:18570"@,
        LINK_POLL_MILLIS == 100,
{
}

/// Every datagram of the simulator is sent over the links as it came, and every
/// payload of the server goes to the simulator as it came, until the loop for link
/// events comes to rest. Payloads of others go nowhere.
pub proof fn law_data_is_passed_on(
    sitl: SitlView,
    data: Vec<u8>,
    address: AddressHash,
    id: AddressHash,
)
    ensures
        sitl.socket_action(SocketEvent::Datagram(data)) == SocketAction::Send(data),
        ({
            let action = sitl.link_action(
                LinkLoopEvent::Link { address, id, event: LinkEvent::Data(data) },
            );
            &&& sitl.links_rest ==> action is Rest
            &&& !sitl.links_rest && address == sitl.server ==> action == LinkAction::Deliver(data)
            &&& !sitl.links_rest && address != sitl.server ==> action is Receive
        }),
{
}

/// The socket is received from as soon as there is a link, which is looked for ten
/// times a second, and again after data was sent and after an error.
pub proof fn law_socket_waits_for_a_link(sitl: SitlView, event: SocketEvent)
    ensures
        sitl.linked && event !is Datagram ==> sitl.socket_action(event) is Receive,
        !sitl.linked && (event is Begin || event is Waited) ==> sitl.socket_action(event) == (
        SocketAction::Wait { millis: 100 }),
        event is Sent || event is ReceiveFailed ==> sitl.socket_action(event) is Receive,
{
}

/// A link is created whenever the server announces itself and only then, unless
/// the loop for announces is at rest; it comes to rest with the announce of the
/// server that finds the link held.
pub proof fn law_announces_of_the_server_create_links(sitl: SitlView, address: AddressHash)
    ensures
        sitl.announce_action(address).create <==> address == sitl.server && !sitl.announces_rest,
        sitl.announce_action(address).rest <==> sitl.announces_rest || (address == sitl.server
            && sitl.held),
{
}

/// The loop for link events ends when a payload cannot be delivered, when events
/// were missed and when no more come, unless it is at rest; it comes to rest when
/// a link of the server closes while the link is held. It goes on after anything
/// else.
pub proof fn law_link_loop_of_the_simulator(sitl: SitlView, event: LinkLoopEvent)
    ensures
        sitl.link_action(event) is Stop <==> !sitl.links_rest && (event is DeliveryFailed
            || event is Lagged || event is Broken),
        sitl.link_action(event) is Rest <==> sitl.links_rest || (sitl.held && (
        event matches LinkLoopEvent::Link { address, id, event } && address == sitl.server
            && event is Closed)),
        sitl.link_action(event) is Deliver ==> event is Link,
{
}

} // verus!
