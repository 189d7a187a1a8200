//! The flight controller side of the bridge: it requests the data link, and
//! passes data between the link and the serial port.

use crate::link::{AddressHash, LinkEvent, LinkId, LinkLoopEvent, LinkStatus};
use vstd::prelude::*;
use vstd::slice::{slice_subrange, slice_to_vec};

verus! {

/// The configuration file.
pub const CONFIG_PATH: &'static str = "Fc.toml";

/// When the fc is disconnected the port will read 0 bytes and reconnecting the
/// controller does not always restore the data stream because it may be assigned to a
/// different serial device in `/dev/`. If we detect this is happening then shut down
/// the flight controller.
pub const SERIAL_PORT_READ_0_BYTES_LIMIT: usize = 30;

/// Seconds that a requested link has to become active.
pub const DATA_LINK_REQUEST_TIMEOUT_SECONDS: u64 = 15;

/// Seconds to wait for an announce before the link is checked.
pub const ANNOUNCE_RECV_TIMEOUT_SECONDS: u64 = 5;

/// The configuration of the flight controller side.
#[derive(Debug)]
pub struct Config {
    pub log_level: String,
    pub log_throughput: bool,
    pub serial_port: String,
    pub serial_baud: u32,
    pub gc_data_destination: String,
    pub radio_module: usize,
}

/// The flight controller side before it runs.
#[derive(Debug)]
pub struct Fc {
    pub config: Config,
    /// Whether there is a radio to keep alive by pings.
    pub radio_client: bool,
}

/// What the loop that waits for announces is told.
#[derive(Debug)]
pub enum AnnounceEvent {
    /// A destination announced itself. `status` is the state of the data link.
    Announce { address: AddressHash, status: Option<LinkStatus> },
    /// The link that was to be created has been requested.
    Requested(LinkId),
    /// Nobody announced anything in time.
    Quiet { status: Option<LinkStatus> },
    /// No more announces will come.
    Broken,
}

/// How the loop that waits for announces goes on.
#[derive(Debug, Clone, Copy, PartialEq, Eq, Structural)]
pub enum AnnounceNext {
    Receive,
    /// Request a link to the destination that announced itself.
    CreateLink,
    Stop,
}

/// What the loop that waits for announces does next: it closes a link that was
/// given up, if there is one, and goes on.
#[derive(Debug, Clone, Copy, PartialEq, Eq, Structural)]
pub struct AnnounceAction {
    pub close: Option<LinkId>,
    pub next: AnnounceNext,
}

/// What the loop around the serial port is told.
#[derive(Debug)]
pub enum PortEvent {
    Read(Vec<u8>),
    ReadFailed,
    /// The state of the link that was to be checked, if it is still there.
    Checked(Option<LinkStatus>),
    /// The chunk has been sent.
    Sent,
    /// The chunk could not be sent.
    NotSent,
}

/// What the loop around the serial port does next.
#[derive(Debug)]
pub enum PortAction {
    Read,
    /// Find out in what state the link is.
    Check(LinkId),
    /// Send the chunk over the link; where that succeeds, count the packet if
    /// `count` says so.
    Send { link: LinkId, chunk: Vec<u8>, count: bool },
    Stop,
}

/// What the loop that waits for link events does next.
#[derive(Debug)]
pub enum LinkAction {
    Receive,
    /// Write the payload to the serial port; where that succeeds, count the
    /// packet if `count` says so.
    Deliver { payload: Vec<u8>, count: bool },
    Stop,
}

/// What was read from the serial port and has still to be sent.
#[derive(Debug)]
struct Unsent {
    link: LinkId,
    chunks: Vec<Vec<u8>>,
}

/// The flight controller side while it runs.
#[derive(Debug)]
pub struct Bridge {
    log_throughput: bool,
    destination: AddressHash,
    data_link: Option<LinkId>,
    requested_at: Option<u64>,
    idle_reads: usize,
    unsent: Option<Unsent>,
}

/// Chunks that have still to be sent, and the link for them.
#[verifier::ext_equal]
pub struct UnsentView {
    pub link: LinkId,
    pub chunks: Seq<Seq<u8>>,
}

/// The state of a [`Bridge`].
#[verifier::ext_equal]
pub struct BridgeView {
    pub log_throughput: bool,
    /// The destination of ground control.
    pub destination: AddressHash,
    pub data_link: Option<LinkId>,
    /// When the link was requested, in nanoseconds on the caller's clock, until
    /// it becomes active.
    pub requested_at: Option<u64>,
    /// How many reads in a row brought nothing.
    pub idle_reads: nat,
    /// The chunks that have still to be sent, and the link for them.
    pub unsent: Option<UnsentView>,
}

impl BridgeView {
    /// Whether the request for a link has waited too long.
    pub open spec fn expired(self, now: u64) -> bool {
        self.requested_at matches Some(then) && now - then > DATA_LINK_REQUEST_TIMEOUT_SECONDS
            * 1_000_000_000
    }

    /// Whether the link, or the request for one, is given up.
    pub open spec fn gives_up(self, status: Option<LinkStatus>, now: u64) -> bool {
        (self.data_link is Some && status == Some(LinkStatus::Closed)) || self.expired(now)
    }

    /// The state after the link was checked.
    pub open spec fn checked(self, status: Option<LinkStatus>, now: u64) -> BridgeView {
        if self.gives_up(status, now) {
            BridgeView { data_link: None, requested_at: None, ..self }
        } else {
            self
        }
    }

    /// The link to close when the link was checked.
    pub open spec fn closes(self, status: Option<LinkStatus>, now: u64) -> Option<LinkId> {
        if self.gives_up(status, now) {
            self.data_link
        } else {
            None
        }
    }

    /// The state after an event on a link of the destination `address`.
    pub open spec fn after_link_event(self, address: AddressHash, event: LinkEvent) -> BridgeView {
        if address != self.destination {
            self
        } else {
            match event {
                LinkEvent::Activated => BridgeView { requested_at: None, ..self },
                LinkEvent::Closed => BridgeView { data_link: None, ..self },
                _ => self,
            }
        }
    }

    /// What the loop that waits for link events does after an event.
    pub open spec fn link_action(self, event: LinkLoopEvent) -> LinkAction {
        match event {
            LinkLoopEvent::Link {
                address,
                id,
                event: LinkEvent::Data(payload),
            } if address == self.destination => LinkAction::Deliver {
                payload,
                count: self.log_throughput,
            },
            LinkLoopEvent::DeliveryFailed | LinkLoopEvent::Broken => LinkAction::Stop,
            _ => LinkAction::Receive,
        }
    }

    /// The state after the loop that waits for announces was told something.
    pub open spec fn after_announce_event(self, event: AnnounceEvent, now: u64) -> BridgeView {
        match event {
            AnnounceEvent::Announce { address, status } => self.checked(status, now),
            AnnounceEvent::Requested(id) => BridgeView {
                data_link: Some(id),
                requested_at: Some(now),
                ..self
            },
            AnnounceEvent::Quiet { status } => self.checked(status, now),
            AnnounceEvent::Broken => self,
        }
    }

    /// What the loop that waits for announces does after an event.
    pub open spec fn announce_action(self, event: AnnounceEvent, now: u64) -> AnnounceAction {
        match event {
            AnnounceEvent::Announce { address, status } => AnnounceAction {
                close: self.closes(status, now),
                next: if address == self.destination && self.checked(
                    status,
                    now,
                ).data_link is None {
                    AnnounceNext::CreateLink
                } else {
                    AnnounceNext::Receive
                },
            },
            AnnounceEvent::Requested(id) => AnnounceAction {
                close: None,
                next: AnnounceNext::Receive,
            },
            AnnounceEvent::Quiet { status } => AnnounceAction {
                close: self.closes(status, now),
                next: AnnounceNext::Receive,
            },
            AnnounceEvent::Broken => AnnounceAction { close: None, next: AnnounceNext::Stop },
        }
    }

    /// Whether an action is right after the loop around the serial port was told
    /// this.
    pub open spec fn port_action(self, event: PortEvent, action: PortAction) -> bool {
        match event {
            PortEvent::Read(data) => if next_idle(self.idle_reads, data@.len())
                == SERIAL_PORT_READ_0_BYTES_LIMIT {
                action is Stop
            } else {
                match self.data_link {
                    Some(link) if data@.len() > 0 => action == PortAction::Check(link),
                    _ => action is Read,
                }
            },
            PortEvent::ReadFailed => action is Read,
            PortEvent::Checked(status) => match self.chunk_to_send(status) {
                Some(next) => {
                    &&& action matches PortAction::Send { link, chunk, count }
                    &&& link == self.unsent->0.link
                    &&& chunk@ == next
                    &&& count == self.log_throughput
                },
                None => action is Read,
            },
            PortEvent::Sent | PortEvent::NotSent => if self.has_unsent() {
                action == PortAction::Check(self.unsent->0.link)
            } else {
                action is Read
            },
        }
    }

    /// The state after a read of `data`, to be sent in chunks of `size` bytes
    /// where there is a link.
    pub open spec fn after_read(self, data: Seq<u8>, size: nat) -> BridgeView {
        BridgeView {
            idle_reads: next_idle(self.idle_reads, data.len()),
            unsent: match self.data_link {
                Some(link) if data.len() > 0 => Some(
                    UnsentView { link, chunks: chunked(data, size) },
                ),
                _ => None,
            },
            ..self
        }
    }

    /// The chunk to send after the link was checked: the next one where the
    /// link is open.
    pub open spec fn chunk_to_send(self, status: Option<LinkStatus>) -> Option<Seq<u8>> {
        match (self.unsent, status) {
            (Some(unsent), Some(status)) if status.open() && unsent.chunks.len() > 0 => Some(
                unsent.chunks.first(),
            ),
            _ => None,
        }
    }

    /// The state after the link was checked for a chunk. Nothing is left to be
    /// sent where the link is not open.
    pub open spec fn after_check(self, status: Option<LinkStatus>) -> BridgeView {
        BridgeView {
            unsent: match (self.unsent, self.chunk_to_send(status)) {
                (Some(unsent), Some(_)) => Some(
                    UnsentView { chunks: unsent.chunks.drop_first(), ..unsent },
                ),
                _ => None,
            },
            ..self
        }
    }

    /// Whether some chunk has still to be sent.
    pub open spec fn has_unsent(self) -> bool {
        self.unsent matches Some(unsent) && unsent.chunks.len() > 0
    }
}

impl View for Bridge {
    type V = BridgeView;

    closed spec fn view(&self) -> BridgeView {
        BridgeView {
            log_throughput: self.log_throughput,
            destination: self.destination,
            data_link: self.data_link,
            requested_at: self.requested_at,
            idle_reads: self.idle_reads as nat,
            unsent: match self.unsent {
                Some(unsent) => Some(
                    UnsentView { link: unsent.link, chunks: contents(unsent.chunks@) },
                ),
                None => None,
            },
        }
    }
}

/// How many reads in a row brought nothing, after one of `size` bytes.
pub open spec fn next_idle(idle: nat, size: nat) -> nat {
    if size > 0 {
        0
    } else {
        idle + 1
    }
}

/// Data cut into chunks of `size` bytes, the last of which may be shorter.
pub open spec fn chunked(data: Seq<u8>, size: nat) -> Seq<Seq<u8>>
    decreases data.len(),
{
    if data.len() == 0 || size == 0 {
        Seq::empty()
    } else if data.len() <= size {
        seq![data]
    } else {
        seq![data.take(size as int)] + chunked(data.skip(size as int), size)
    }
}

/// The contents of some chunks.
pub open spec fn contents(chunks: Seq<Vec<u8>>) -> Seq<Seq<u8>> {
    chunks.map_values(|chunk: Vec<u8>| chunk@)
}

/// Cuts data into chunks of `size` bytes, the last of which may be shorter.
pub fn chunks(data: &[u8], size: usize) -> (chunks: Vec<Vec<u8>>)
    requires
        size > 0,
    ensures
        contents(chunks@) == chunked(data@, size as nat),
{
    let mut chunks: Vec<Vec<u8>> = Vec::new();
    let mut at: usize = 0;
    assert(data@.skip(0) =~= data@);
    assert(contents(chunks@) =~= Seq::<Seq<u8>>::empty());
    while at < data.len()
        invariant
            at <= data@.len(),
            size > 0,
            contents(chunks@) + chunked(data@.skip(at as int), size as nat) =~= chunked(
                data@,
                size as nat,
            ),
        decreases data@.len() - at,
    {
        let end: usize = if data.len() - at <= size {
            data.len()
        } else {
            at + size
        };
        let chunk = slice_to_vec(slice_subrange(data, at, end));
        let ghost done = chunks@;
        let ghost rest = data@.skip(at as int);
        proof {
            if rest.len() <= size {
                assert(chunk@ =~= rest);
                assert(data@.skip(end as int) =~= Seq::<u8>::empty());
            } else {
                assert(chunk@ =~= rest.take(size as int));
                assert(data@.skip(end as int) =~= rest.skip(size as int));
            }
        }
        chunks.push(chunk);
        assert(contents(chunks@) =~= contents(done).push(chunk@));
        at = end;
    }
    assert(data@.skip(at as int) =~= Seq::<u8>::empty());
    chunks
}

impl Fc {
    /// The flight controller side with its configuration.
    pub fn new(config: Config, radio_client: bool) -> (fc: Result<Self, ()>)
        ensures
            fc == Ok::<Fc, ()>(Fc { config, radio_client }),
    {
        let fc = Fc { config, radio_client };
        Ok(fc)
    }

    /// Starts a run that takes its data from links to `gc_data_destination`.
    pub fn run(&self, gc_data_destination: AddressHash) -> (bridge: Bridge)
        ensures
            bridge@ == (BridgeView {
                log_throughput: self.config.log_throughput,
                destination: gc_data_destination,
                data_link: None,
                requested_at: None,
                idle_reads: 0,
                unsent: None,
            }),
    {
        Bridge {
            log_throughput: self.config.log_throughput,
            destination: gc_data_destination,
            data_link: None,
            requested_at: None,
            idle_reads: 0,
            unsent: None,
        }
    }
}

impl Bridge {
    /// The data link, where there is one.
    pub fn data_link(&self) -> (link: Option<LinkId>)
        ensures
            link == self@.data_link,
    {
        self.data_link
    }

    /// How many reads in a row brought nothing.
    pub fn idle_reads(&self) -> (reads: usize)
        ensures
            reads == self@.idle_reads,
    {
        self.idle_reads
    }

    /// Gives up the data link where it is closed, and the request for one where
    /// it has waited too long. Says which link is to be closed for that.
    pub fn check_status(&mut self, status: Option<LinkStatus>, now: u64) -> (close: Option<LinkId>)
        ensures
            final(self)@ == old(self)@.checked(status, now),
            close == old(self)@.closes(status, now),
    {
        let mut close: Option<LinkId> = None;
        if self.data_link.is_some() {
            if let Some(LinkStatus::Closed) = status {
                close = self.data_link;
                self.data_link = None;
                self.requested_at = None;
            }
        }
        if let Some(then) = self.requested_at {
            if now.saturating_sub(then) > DATA_LINK_REQUEST_TIMEOUT_SECONDS * 1_000_000_000 {
                close = self.data_link;
                self.data_link = None;
                self.requested_at = None;
            }
        }
        close
    }

    /// Tells the loop that waits for announces what happened; it says what to do
    /// next. Every announce and every silence is an occasion to check the link.
    /// A link is created when ground control announces itself and there is none.
    pub fn announce_step(&mut self, event: AnnounceEvent, now: u64) -> (action: AnnounceAction)
        ensures
            match event {
                AnnounceEvent::Announce { address, status } => {
                    &&& final(self)@ == old(self)@.checked(status, now)
                    &&& action.close == old(self)@.closes(status, now)
                    &&& action.next == if address == old(self)@.destination
                        && final(self)@.data_link is None {
                        AnnounceNext::CreateLink
                    } else {
                        AnnounceNext::Receive
                    }
                },
                AnnounceEvent::Requested(id) => {
                    &&& final(self)@ == (BridgeView {
                        data_link: Some(id),
                        requested_at: Some(now),
                        ..old(self)@
                    })
                    &&& action == (AnnounceAction { close: None, next: AnnounceNext::Receive })
                },
                AnnounceEvent::Quiet { status } => {
                    &&& final(self)@ == old(self)@.checked(status, now)
                    &&& action == (AnnounceAction {
                        close: old(self)@.closes(status, now),
                        next: AnnounceNext::Receive,
                    })
                },
                AnnounceEvent::Broken => {
                    &&& final(self)@ == old(self)@
                    &&& action == (AnnounceAction { close: None, next: AnnounceNext::Stop })
                },
            },
            final(self)@ == old(self)@.after_announce_event(event, now),
            action == old(self)@.announce_action(event, now),
    {
        match event {
            AnnounceEvent::Announce { address, status } => {
                let close = self.check_status(status, now);
                let next = if address == self.destination && self.data_link.is_none() {
                    AnnounceNext::CreateLink
                } else {
                    AnnounceNext::Receive
                };
                AnnounceAction { close, next }
            },
            AnnounceEvent::Requested(id) => {
                self.data_link = Some(id);
                self.requested_at = Some(now);
                AnnounceAction { close: None, next: AnnounceNext::Receive }
            },
            AnnounceEvent::Quiet { status } => {
                let close = self.check_status(status, now);
                AnnounceAction { close, next: AnnounceNext::Receive }
            },
            AnnounceEvent::Broken => AnnounceAction { close: None, next: AnnounceNext::Stop },
        }
    }

    /// Tells the loop around the serial port what happened; it says what to do
    /// next. Data is cut into chunks of half a packet and goes over the link,
    /// or nowhere while there is none. Before each chunk the link is checked;
    /// where it is not open, the rest is dropped. A chunk that could not be
    /// sent is passed over. Too many reads in a row that bring nothing end the
    /// loop.
    pub fn port_step(&mut self, event: PortEvent, packet_mdu: usize) -> (action: PortAction)
        requires
            old(self)@.idle_reads < SERIAL_PORT_READ_0_BYTES_LIMIT,
            packet_mdu >= 2,
        ensures
            match event {
                PortEvent::Read(data) => {
                    &&& final(self)@ == old(self)@.after_read(data@, (packet_mdu / 2) as nat)
                    &&& if final(self)@.idle_reads == SERIAL_PORT_READ_0_BYTES_LIMIT {
                        action is Stop
                    } else {
                        match final(self)@.unsent {
                            Some(unsent) => action == PortAction::Check(unsent.link),
                            None => action is Read,
                        }
                    }
                },
                PortEvent::ReadFailed => {
                    &&& final(self)@ == (BridgeView { unsent: None, ..old(self)@ })
                    &&& action is Read
                },
                PortEvent::Checked(status) => {
                    &&& final(self)@ == old(self)@.after_check(status)
                    &&& match old(self)@.chunk_to_send(status) {
                        Some(next) => {
                            &&& action matches PortAction::Send { link, chunk, count }
                            &&& link == old(self)@.unsent->0.link
                            &&& chunk@ == next
                            &&& count == old(self)@.log_throughput
                        },
                        None => action is Read,
                    }
                },
                PortEvent::Sent | PortEvent::NotSent => {
                    &&& final(self)@ == old(self)@
                    &&& if old(self)@.has_unsent() {
                        action == PortAction::Check(old(self)@.unsent->0.link)
                    } else {
                        action is Read
                    }
                },
            },
            old(self)@.port_action(event, action),
    {
        match event {
            PortEvent::Read(data) => {
                self.unsent = None;
                if data.len() > 0 {
                    self.idle_reads = 0;
                } else {
                    self.idle_reads = self.idle_reads + 1;
                    if self.idle_reads == SERIAL_PORT_READ_0_BYTES_LIMIT {
                        return PortAction::Stop;
                    }
                }
                if let Some(link) = self.data_link {
                    if data.len() > 0 {
                        let chunks = chunks(data.as_slice(), packet_mdu / 2);
                        self.unsent = Some(Unsent { link, chunks });
                        return PortAction::Check(link);
                    }
                }
                PortAction::Read
            },
            PortEvent::ReadFailed => {
                self.unsent = None;
                PortAction::Read
            },
            PortEvent::Checked(status) => {
                let open = match status {
                    Some(status) => status.is_open(),
                    None => false,
                };
                match self.unsent.take() {
                    Some(mut unsent) => {
                        if !open || unsent.chunks.len() == 0 {
                            return PortAction::Read;
                        }
                        let ghost before = unsent.chunks@;
                        let chunk = unsent.chunks.remove(0);
                        assert(contents(unsent.chunks@) =~= contents(before).drop_first());
                        let link = unsent.link;
                        self.unsent = Some(unsent);
                        PortAction::Send { link, chunk, count: self.log_throughput }
                    },
                    None => PortAction::Read,
                }
            },
            PortEvent::Sent | PortEvent::NotSent => match &self.unsent {
                Some(unsent) => if unsent.chunks.len() > 0 {
                    PortAction::Check(unsent.link)
                } else {
                    PortAction::Read
                },
                None => PortAction::Read,
            },
        }
    }

    /// Tells the loop that waits for link events what happened; it says what to
    /// do next. Data goes to the serial port. What happens on links of other
    /// destinations is passed over.
    pub fn link_step(&mut self, event: LinkLoopEvent) -> (action: LinkAction)
        ensures
            final(self)@ == match event {
                LinkLoopEvent::Link { address, id, event } => old(self)@.after_link_event(
                    address,
                    event,
                ),
                _ => old(self)@,
            },
            match event {
                LinkLoopEvent::Link {
                    address,
                    id,
                    event: LinkEvent::Data(payload),
                } if address == old(self)@.destination => action == (LinkAction::Deliver {
                    payload,
                    count: old(self)@.log_throughput,
                }),
                LinkLoopEvent::DeliveryFailed | LinkLoopEvent::Broken => action is Stop,
                _ => action is Receive,
            },
            action == old(self)@.link_action(event),
    {
        match event {
            LinkLoopEvent::Link { address, id: _, event } => {
                if address == self.destination {
                    match event {
                        LinkEvent::Data(payload) => {
                            return LinkAction::Deliver { payload, count: self.log_throughput };
                        },
                        LinkEvent::Activated => {
                            self.requested_at = None;
                        },
                        LinkEvent::Closed => {
                            self.data_link = None;
                        },
                        LinkEvent::Proof => {},
                    }
                }
                LinkAction::Receive
            },
            LinkLoopEvent::Delivered | LinkLoopEvent::Lagged => LinkAction::Receive,
            LinkLoopEvent::DeliveryFailed | LinkLoopEvent::Broken => LinkAction::Stop,
        }
    }
}

/// The data that some chunks hold together.
pub open spec fn joined(chunks: Seq<Seq<u8>>) -> Seq<u8>
    decreases chunks.len(),
{
    if chunks.len() == 0 {
        Seq::empty()
    } else {
        chunks.first() + joined(chunks.drop_first())
    }
}

/// Cutting data into chunks loses nothing and changes no order.
pub proof fn law_chunks_hold_the_data(data: Seq<u8>, size: nat)
    requires
        size > 0,
    ensures
        joined(chunked(data, size)) == data,
    decreases data.len(),
{
    let chunks = chunked(data, size);
    if data.len() == 0 {
        assert(joined(chunks) =~= data);
    } else if data.len() <= size {
        assert(chunks.drop_first() =~= Seq::<Seq<u8>>::empty());
        assert(joined(chunks.drop_first()) =~= Seq::<u8>::empty());
        assert(joined(chunks) =~= data);
    } else {
        law_chunks_hold_the_data(data.skip(size as int), size);
        assert(chunks.drop_first() =~= chunked(data.skip(size as int), size));
        assert(joined(chunks) =~= data);
    }
}

/// No chunk is empty or longer than `size`, and only the last can be shorter.
pub proof fn law_chunks_have_the_size(data: Seq<u8>, size: nat, i: int)
    requires
        size > 0,
        0 <= i < chunked(data, size).len(),
    ensures
        0 < chunked(data, size)[i].len() <= size,
        i < chunked(data, size).len() - 1 ==> chunked(data, size)[i].len() == size,
    decreases data.len(),
{
    if data.len() > size {
        let rest = data.skip(size as int);
        if i > 0 {
            law_chunks_have_the_size(rest, size, i - 1);
            assert(chunked(data, size)[i] == chunked(rest, size)[i - 1]);
        }
    }
}

/// The chunks that are sent when checks of the link before one chunk after the
/// other come out like this.
pub open spec fn sent_chunks(bridge: BridgeView, checks: Seq<Option<LinkStatus>>) -> Seq<Seq<u8>>
    decreases checks.len(),
{
    if checks.len() == 0 {
        Seq::empty()
    } else {
        match bridge.chunk_to_send(checks.first()) {
            Some(chunk) => seq![chunk] + sent_chunks(
                bridge.after_check(checks.first()),
                checks.drop_first(),
            ),
            None => Seq::empty(),
        }
    }
}

/// Whether a check found the link open.
pub open spec fn found_open(check: Option<LinkStatus>) -> bool {
    check matches Some(status) && status.open()
}

/// Chunks are sent in order for as long as the link is found open, and none
/// after that.
pub proof fn law_chunks_are_sent_while_link_is_open(
    bridge: BridgeView,
    checks: Seq<Option<LinkStatus>>,
    open: nat,
)
    requires
        bridge.unsent is Some,
        open <= bridge.unsent->0.chunks.len(),
        open <= checks.len(),
        forall|i: int| 0 <= i < open ==> found_open(#[trigger] checks[i]),
        open == bridge.unsent->0.chunks.len() || open == checks.len() || !found_open(
            checks[open as int],
        ),
    ensures
        sent_chunks(bridge, checks) == bridge.unsent->0.chunks.take(open as int),
    decreases checks.len(),
{
    let chunks = bridge.unsent->0.chunks;
    if open > 0 {
        assert(found_open(checks[0]));
        let after = bridge.after_check(checks.first());
        let rest = checks.drop_first();
        assert forall|i: int| 0 <= i < open - 1 implies found_open(#[trigger] rest[i]) by {
            assert(found_open(checks[i + 1]));
        }
        law_chunks_are_sent_while_link_is_open(after, rest, (open - 1) as nat);
        assert(sent_chunks(bridge, checks) =~= chunks.take(open as int));
    } else {
        assert(sent_chunks(bridge, checks) =~= chunks.take(0));
    }
}

/// All that was read is sent, in order, where the link stays open.
pub proof fn law_open_link_carries_what_was_read(
    bridge: BridgeView,
    data: Seq<u8>,
    size: nat,
    checks: Seq<Option<LinkStatus>>,
)
    requires
        bridge.data_link is Some,
        size > 0,
        checks.len() >= chunked(data, size).len(),
        forall|i: int| 0 <= i < checks.len() ==> found_open(#[trigger] checks[i]),
    ensures
        joined(sent_chunks(bridge.after_read(data, size), checks)) == data,
{
    let after = bridge.after_read(data, size);
    let chunks = chunked(data, size);
    law_chunks_hold_the_data(data, size);
    if data.len() > 0 {
        law_chunks_are_sent_while_link_is_open(after, checks, chunks.len());
        assert(chunks.take(chunks.len() as int) =~= chunks);
    } else {
        assert(sent_chunks(after, checks) =~= chunks);
    }
}

/// How many reads in a row brought nothing, after reads of these sizes.
pub open spec fn idle_after(sizes: Seq<nat>) -> nat
    decreases sizes.len(),
{
    if sizes.len() == 0 {
        0
    } else {
        next_idle(idle_after(sizes.drop_last()), sizes.last())
    }
}

/// The limit on reads that bring nothing is reached exactly when the last reads,
/// as many as the limit says, all brought nothing.
pub proof fn law_idle_reads_are_the_last_ones(sizes: Seq<nat>, limit: nat)
    ensures
        idle_after(sizes) >= limit <==> limit <= sizes.len() && (forall|i: int|
            sizes.len() - limit <= i < sizes.len() ==> sizes[i] == 0),
    decreases sizes.len(),
{
    if sizes.len() > 0 && limit > 0 {
        let front = sizes.drop_last();
        law_idle_reads_are_the_last_ones(front, (limit - 1) as nat);
        if idle_after(sizes) >= limit {
            assert forall|i: int| sizes.len() - limit <= i < sizes.len() implies sizes[i] == 0 by {
                if i < sizes.len() - 1 {
                    assert(sizes[i] == front[i]);
                }
            }
        }
        if limit <= sizes.len() && (forall|i: int|
            sizes.len() - limit <= i < sizes.len() ==> sizes[i] == 0) {
            assert forall|i: int| front.len() - (limit - 1) <= i < front.len() implies front[i]
                == 0 by {
                assert(sizes[i] == front[i]);
            }
            assert(sizes[sizes.len() - 1] == 0);
        }
    }
}

/// A link that became active is given up only once it is closed, however much
/// time passes.
pub proof fn law_active_link_is_kept(
    bridge: BridgeView,
    status: Option<LinkStatus>,
    now: u64,
)
    requires
        status != Some(LinkStatus::Closed),
    ensures
        ({
            let active = bridge.after_link_event(bridge.destination, LinkEvent::Activated);
            active.checked(status, now) == active && active.closes(status, now) is None
        }),
{
}

/// A request that has waited too long leaves neither a link nor a request, so
/// that the next announce of ground control makes a new one.
pub proof fn law_expired_request_is_dropped(
    bridge: BridgeView,
    status: Option<LinkStatus>,
    requested: u64,
    now: u64,
)
    requires
        bridge.requested_at == Some(requested),
        now - requested > 15_000_000_000,
    ensures
        bridge.checked(status, now).data_link is None,
        bridge.checked(status, now).requested_at is None,
        bridge.closes(status, now) == bridge.data_link,
{
}

/// What is read while there is a data link is to be sent over exactly that link,
/// whatever else the state is; without a link, or where nothing was read, there
/// is nothing to send. A read that brings something ends a row of reads that
/// brought nothing, and any other makes it longer by one. Nothing else changes.
pub proof fn law_data_goes_over_the_data_link(bridge: BridgeView, data: Seq<u8>, size: nat)
    ensures
        bridge.after_read(data, size).unsent is Some <==> bridge.data_link is Some && data.len()
            > 0,
        forall|id: LinkId|
            bridge.data_link == Some(id) && data.len() > 0 ==> {
                let unsent = (#[trigger] bridge.after_read(data, size)).unsent;
                unsent == Some(UnsentView { link: id, chunks: chunked(data, size) })
            },
        data.len() > 0 ==> bridge.after_read(data, size).idle_reads == 0,
        data.len() == 0 ==> bridge.after_read(data, size).idle_reads == bridge.idle_reads + 1,
        ({
            let after = bridge.after_read(data, size);
            &&& after.data_link == bridge.data_link
            &&& after.requested_at == bridge.requested_at
            &&& after.destination == bridge.destination
            &&& after.log_throughput == bridge.log_throughput
        }),
{
}

/// As many chunks as it takes, and no more: all bytes fit into them, but not into
/// one chunk less.
pub proof fn law_number_of_chunks(data: Seq<u8>, size: nat)
    requires
        size > 0,
    ensures
        data.len() <= chunked(data, size).len() * size,
        data.len() > 0 ==> (chunked(data, size).len() - 1) * size < data.len(),
        data.len() == 0 ==> chunked(data, size).len() == 0,
    decreases data.len(),
{
    if data.len() > size {
        let rest = data.skip(size as int);
        law_number_of_chunks(rest, size);
        let n = chunked(rest, size).len() as int;
        assert(chunked(data, size).len() == n + 1);
        assert((n + 1) * size == n * size + size) by (nonlinear_arith);
        assert((n - 1) * size == n * size - size) by (nonlinear_arith);
    } else if data.len() > 0 {
        assert(1 * size == size) by (nonlinear_arith);
        assert((1 - 1) * size == 0) by (nonlinear_arith);
    }
}

/// Byte `j` of chunk `i` is the byte of the data at that distance from its start,
/// with full chunks in front; and a chunk is as long as it can be.
pub proof fn law_chunks_are_cut_from_the_data(data: Seq<u8>, size: nat, i: int)
    requires
        size > 0,
        0 <= i < chunked(data, size).len(),
    ensures
        0 <= i * size < data.len(),
        chunked(data, size)[i].len() == if data.len() - i * size < size {
            data.len() - i * size
        } else {
            size as int
        },
        forall|j: int|
            0 <= j < chunked(data, size)[i].len() ==> #[trigger] chunked(data, size)[i][j]
                == data[i * size + j],
    decreases data.len(),
{
    if i == 0 {
        assert(0 * size == 0) by (nonlinear_arith);
        assert(data.len() > 0);
    } else {
        let rest = data.skip(size as int);
        assert(data.len() > size);
        law_chunks_are_cut_from_the_data(rest, size, i - 1);
        assert((i - 1) * size + size == i * size) by (nonlinear_arith);
        assert(chunked(data, size)[i] == chunked(rest, size)[i - 1]);
        assert forall|j: int| 0 <= j < chunked(data, size)[i].len() implies #[trigger] chunked(
            data,
            size,
        )[i][j] == data[i * size + j] by {
            assert(chunked(rest, size)[i - 1][j] == rest[(i - 1) * size + j]);
        }
    }
}

/// The contents of chunks are those of each, in order.
pub proof fn law_contents_of_chunks(chunks: Seq<Vec<u8>>)
    ensures
        contents(chunks).len() == chunks.len(),
        forall|i: int| 0 <= i < chunks.len() ==> #[trigger] contents(chunks)[i] == chunks[i]@,
{
}

/// Where the link is active or stale, the first chunk that is left goes out over
/// the link that the chunks are for, and the others stay as they are, in order.
/// In any other state of the link, and where it is gone, none goes out and none
/// stays. Nothing else changes.
pub proof fn law_next_chunk_goes_out_over_an_open_link(
    bridge: BridgeView,
    unsent: UnsentView,
    status: Option<LinkStatus>,
)
    requires
        bridge.unsent == Some(unsent),
        unsent.chunks.len() > 0,
    ensures
        bridge.has_unsent(),
        status == Some(LinkStatus::Active) || status == Some(LinkStatus::Stale) ==> {
            let after = bridge.after_check(status).unsent;
            &&& bridge.chunk_to_send(status) == Some(unsent.chunks[0])
            &&& after is Some
            &&& after->0.link == unsent.link
            &&& after->0.chunks.len() == unsent.chunks.len() - 1
            &&& forall|i: int|
                0 < i < unsent.chunks.len() ==> after->0.chunks[i - 1] == #[trigger] unsent.chunks[i]
        },
        status is None || status->0 is Pending || status->0 is Handshake || status->0 is Closed
            ==> bridge.chunk_to_send(status) is None && bridge.after_check(status).unsent is None,
        ({
            let after = bridge.after_check(status);
            &&& after.data_link == bridge.data_link
            &&& after.requested_at == bridge.requested_at
            &&& after.idle_reads == bridge.idle_reads
            &&& after.destination == bridge.destination
            &&& after.log_throughput == bridge.log_throughput
        }),
{
}

/// Where no chunk is left, none goes out.
pub proof fn law_nothing_goes_out_without_chunks(bridge: BridgeView, status: Option<LinkStatus>)
    requires
        bridge.unsent is None || bridge.unsent->0.chunks.len() == 0,
    ensures
        !bridge.has_unsent(),
        bridge.chunk_to_send(status) is None,
        bridge.after_check(status) == (BridgeView { unsent: None, ..bridge }),
{
}

/// A link that closes is given up, whether or not it had become active: at once
/// when its closing is reported, and at the next check when it is found closed,
/// which then is also the link to close. So the next announce of ground control
/// finds no link.
pub proof fn law_closed_link_is_given_up(bridge: BridgeView, id: LinkId, now: u64)
    requires
        bridge.data_link == Some(id),
    ensures
        bridge.after_link_event(bridge.destination, LinkEvent::Closed).data_link is None,
        bridge.checked(Some(LinkStatus::Closed), now).data_link is None,
        bridge.checked(Some(LinkStatus::Closed), now).requested_at is None,
        bridge.closes(Some(LinkStatus::Closed), now) == Some(id),
{
}

/// A link that is not closed, and whose request if it is still waiting for an
/// answer is no more than fifteen seconds old, is kept, and so is the request.
pub proof fn law_check_keeps_the_rest(bridge: BridgeView, status: Option<LinkStatus>, now: u64)
    ensures
        (status != Some(LinkStatus::Closed) || bridge.data_link is None) && (
        bridge.requested_at matches Some(then) ==> now <= then + 15_000_000_000)
            ==> bridge.checked(status, now) == bridge && bridge.closes(status, now) is None,
        ({
            let after = bridge.checked(status, now);
            &&& after.log_throughput == bridge.log_throughput
            &&& after.destination == bridge.destination
            &&& after.idle_reads == bridge.idle_reads
            &&& after.unsent == bridge.unsent
        }),
{
}

/// What is reported of links of ground control: activation settles the request
/// and keeps the link, closing ends the link and nothing else, and data and
/// proofs change nothing. What is reported of other links changes nothing.
pub proof fn law_link_events_change_only_this(
    bridge: BridgeView,
    address: AddressHash,
    event: LinkEvent,
)
    ensures
        ({
            let after = bridge.after_link_event(address, event);
            &&& address != bridge.destination || event is Data || event is Proof ==> after == bridge
            &&& after.data_link == bridge.data_link || event is Closed
            &&& after.requested_at == bridge.requested_at || event is Activated
            &&& address == bridge.destination && event is Activated ==> after.requested_at is None
            &&& address == bridge.destination && event is Closed ==> after.data_link is None
            &&& after.log_throughput == bridge.log_throughput
            &&& after.destination == bridge.destination
            &&& after.idle_reads == bridge.idle_reads
            &&& after.unsent == bridge.unsent
        }),
{
}

/// The limits of the flight controller side.
pub proof fn law_limits_of_the_flight_controller()
    ensures
        CONFIG_PATH@ == "Fc.toml"@,
        SERIAL_PORT_READ_0_BYTES_LIMIT == 30,
        DATA_LINK_REQUEST_TIMEOUT_SECONDS == 15,
        ANNOUNCE_RECV_TIMEOUT_SECONDS == 5,
{
}

/// Every payload that comes over a link of ground control goes to the serial port
/// as it came, whatever it holds. What comes over other links goes nowhere.
pub proof fn law_link_data_goes_to_the_serial_port(
    bridge: BridgeView,
    address: AddressHash,
    id: LinkId,
    payload: Vec<u8>,
)
    ensures
        ({
            let action = bridge.link_action(
                LinkLoopEvent::Link { address, id, event: LinkEvent::Data(payload) },
            );
            &&& address == bridge.destination ==> action == (LinkAction::Deliver {
                payload,
                count: bridge.log_throughput,
            })
            &&& address != bridge.destination ==> action is Receive
        }),
{
}

/// The loop for link events goes on whatever happens on links and after what it
/// missed; it ends when a payload cannot be delivered and when no events come.
pub proof fn law_link_loop_goes_on(bridge: BridgeView, event: LinkLoopEvent)
    ensures
        bridge.link_action(event) is Stop <==> event is DeliveryFailed || event is Broken,
        bridge.link_action(event) is Deliver ==> event is Link,
{
}

/// When ground control announces itself and there is no link, or the one that
/// there was is found closed, or its request has waited too long, a link is
/// created. None is created for anybody else, nor while there is a link that is
/// kept. What was given up is closed.
pub proof fn law_announce_creates_the_link_that_is_missing(
    bridge: BridgeView,
    address: AddressHash,
    status: Option<LinkStatus>,
    now: u64,
)
    ensures
        ({
            let action = bridge.announce_action(AnnounceEvent::Announce { address, status }, now);
            let overdue = bridge.requested_at matches Some(then) && now > then + 15_000_000_000;
            let lost = bridge.data_link is Some && (status == Some(LinkStatus::Closed) || overdue);
            &&& action.next == AnnounceNext::CreateLink <==> address == bridge.destination && (
            bridge.data_link is None || lost)
            &&& action.next != AnnounceNext::CreateLink ==> action.next == AnnounceNext::Receive
            &&& lost ==> action.close == bridge.data_link
            &&& !lost ==> action.close is None
        }),
{
}

/// A link that was requested is the data link from that moment on. When nobody
/// announces anything, what is lost is given up as at an announce, and the loop
/// goes on. It ends only with the announces.
pub proof fn law_announce_loop(
    bridge: BridgeView,
    event: AnnounceEvent,
    status: Option<LinkStatus>,
    id: LinkId,
    address: AddressHash,
    now: u64,
)
    ensures
        bridge.after_announce_event(AnnounceEvent::Requested(id), now).data_link == Some(id),
        bridge.after_announce_event(AnnounceEvent::Requested(id), now).requested_at == Some(now),
        bridge.after_announce_event(AnnounceEvent::Requested(id), now) == (BridgeView {
            data_link: Some(id),
            requested_at: Some(now),
            ..bridge
        }),
        bridge.announce_action(AnnounceEvent::Requested(id), now) == (AnnounceAction {
            close: None,
            next: AnnounceNext::Receive,
        }),
        bridge.after_announce_event(AnnounceEvent::Quiet { status }, now)
            == bridge.after_announce_event(AnnounceEvent::Announce { address, status }, now),
        bridge.after_announce_event(AnnounceEvent::Quiet { status }, now) == bridge.checked(
            status,
            now,
        ),
        bridge.announce_action(AnnounceEvent::Quiet { status }, now).close
            == bridge.announce_action(AnnounceEvent::Announce { address, status }, now).close,
        bridge.announce_action(AnnounceEvent::Quiet { status }, now).next
            == AnnounceNext::Receive,
        bridge.announce_action(event, now).next == AnnounceNext::Stop <==> event is Broken,
        bridge.after_announce_event(AnnounceEvent::Broken, now) == bridge,
        bridge.announce_action(AnnounceEvent::Broken, now).close is None,
{
}

/// A read that brings something leads to a check of the data link, and to nothing
/// where there is none. The thirtieth read in a row that brings nothing ends the
/// loop, and no other does; an error of the port does not.
pub proof fn law_reads_lead_to_a_check(bridge: BridgeView, data: Vec<u8>, action: PortAction)
    requires
        bridge.port_action(PortEvent::Read(data), action),
    ensures
        action is Stop <==> data@.len() == 0 && bridge.idle_reads == 29,
        data@.len() > 0 && bridge.data_link is Some ==> action == PortAction::Check(
            bridge.data_link->0,
        ),
        data@.len() > 0 && bridge.data_link is None ==> action is Read,
        data@.len() == 0 && bridge.idle_reads != 29 ==> action is Read,
{
}

/// After a check that finds the link active or stale, the first chunk that is left
/// is sent as it is, over the link that it is for; after any other check, the port
/// is read again. After a chunk, whether or not it could be sent, the link is
/// checked for the next, or the port is read again where there is none.
pub proof fn law_checks_lead_to_a_chunk(
    bridge: BridgeView,
    unsent: UnsentView,
    status: Option<LinkStatus>,
    event: PortEvent,
    action: PortAction,
)
    requires
        bridge.unsent == Some(unsent),
        bridge.port_action(event, action),
    ensures
        event == PortEvent::Checked(status) && unsent.chunks.len() > 0 && (status == Some(
            LinkStatus::Active,
        ) || status == Some(LinkStatus::Stale)) ==> (action matches PortAction::Send {
            link,
            chunk,
            count,
        } && link == unsent.link && chunk@ == unsent.chunks[0] && count == bridge.log_throughput),
        event == PortEvent::Checked(status) && (unsent.chunks.len() == 0 || (status != Some(
            LinkStatus::Active,
        ) && status != Some(LinkStatus::Stale))) ==> action is Read,
        (event is Sent || event is NotSent) && unsent.chunks.len() > 0 ==> action
            == PortAction::Check(unsent.link),
        (event is Sent || event is NotSent) && unsent.chunks.len() == 0 ==> action is Read,
        event is ReadFailed ==> action is Read,
{
}

/// Where nothing is left to be sent, everything but a read leads to the next read.
pub proof fn law_port_is_read_again(bridge: BridgeView, event: PortEvent, action: PortAction)
    requires
        bridge.unsent is None,
        event !is Read,
        bridge.port_action(event, action),
    ensures
        action is Read,
{
}

} // verus!
