//! What the bridge knows of the Reticulum links that it uses.

use vstd::prelude::*;

verus! {

/// The 16 bytes of a Reticulum address hash, read as one big-endian number.
#[derive(Debug, Clone, Copy, PartialEq, Eq, Structural)]
pub struct AddressHash(pub u128);

/// A link is named by an address hash of its own.
pub type LinkId = AddressHash;

/// The state of a link.
#[derive(Debug, Clone, Copy, PartialEq, Eq, Structural)]
pub enum LinkStatus {
    Pending,
    Handshake,
    Active,
    Stale,
    Closed,
}

impl LinkStatus {
    /// Whether data can be sent over a link in this state.
    pub open spec fn open(self) -> bool {
        self == LinkStatus::Active || self == LinkStatus::Stale
    }

    /// Whether data can be sent over a link in this state.
    pub fn is_open(&self) -> (open: bool)
        ensures
            open == self.open(),
    {
        match self {
            LinkStatus::Active | LinkStatus::Stale => true,
            LinkStatus::Pending | LinkStatus::Handshake | LinkStatus::Closed => false,
        }
    }
}

/// What happens on a link.
#[derive(Debug)]
pub enum LinkEvent {
    Data(Vec<u8>),
    Activated,
    Closed,
    Proof,
}

/// What the loop that waits for link events is told.
#[derive(Debug)]
pub enum LinkLoopEvent {
    /// An event on link `id` of the destination `address`.
    Link { address: AddressHash, id: LinkId, event: LinkEvent },
    /// The payload handed out last has been delivered.
    Delivered,
    /// The payload handed out last could not be delivered.
    DeliveryFailed,
    /// Some events were missed because they came too fast.
    Lagged,
    /// No more events will come.
    Broken,
}

/// Data can be sent over a link unless it is still being set up or is closed.
pub proof fn law_open_links(status: LinkStatus)
    ensures
        status.open() <==> !(status is Pending || status is Handshake || status is Closed),
{
}

} // verus!
