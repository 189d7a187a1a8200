//! Keeping the radio alive by pings.

use vstd::prelude::*;

verus! {

/// Seconds between two pings.
pub const PING_INTERVAL_SECONDS: u64 = 10;

/// What the loop that pings the radio is told.
#[derive(Debug, Clone, Copy, PartialEq, Eq, Structural)]
pub enum PingEvent {
    Begin,
    /// The wait is over.
    Waited,
    Answered,
    Failed,
}

/// What the loop that pings the radio does next.
#[derive(Debug, Clone, Copy, PartialEq, Eq, Structural)]
pub enum PingAction {
    Ping,
    Wait { seconds: u64 },
    Stop,
}

/// What the loop that pings the radio does after an event.
pub open spec fn ping_action(radio_client: bool, event: PingEvent) -> PingAction {
    if event == PingEvent::Failed {
        PingAction::Stop
    } else if radio_client && event != PingEvent::Answered {
        PingAction::Ping
    } else {
        PingAction::Wait { seconds: PING_INTERVAL_SECONDS }
    }
}

/// Tells the loop that pings the radio what happened; it says what to do next.
/// Without a radio it only waits; a ping that fails ends it.
pub fn ping_step(radio_client: bool, event: PingEvent) -> (action: PingAction)
    ensures
        action == if event == PingEvent::Failed {
            PingAction::Stop
        } else if radio_client && event != PingEvent::Answered {
            PingAction::Ping
        } else {
            PingAction::Wait { seconds: PING_INTERVAL_SECONDS }
        },
        action == ping_action(radio_client, event),
{
    match event {
        PingEvent::Begin | PingEvent::Waited => if radio_client {
            PingAction::Ping
        } else {
            PingAction::Wait { seconds: PING_INTERVAL_SECONDS }
        },
        PingEvent::Answered => PingAction::Wait { seconds: PING_INTERVAL_SECONDS },
        PingEvent::Failed => PingAction::Stop,
    }
}

/// Pings are ten seconds apart.
pub proof fn law_ping_interval()
    ensures
        PING_INTERVAL_SECONDS == 10,
{
}

/// Where there is a radio, it is pinged at the start and again ten seconds after
/// each answer; where there is none, nothing is ever pinged. A ping that fails,
/// and nothing else, ends the loop.
pub proof fn law_radio_is_pinged(radio_client: bool, event: PingEvent)
    ensures
        ping_action(radio_client, event) is Ping <==> radio_client && (event is Begin
            || event is Waited),
        ping_action(radio_client, event) is Stop <==> event is Failed,
        ping_action(radio_client, event) matches PingAction::Wait { seconds } ==> seconds == 10,
{
}

} // verus!
