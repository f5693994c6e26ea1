use vstd::prelude::*;

verus! {

/// Status of the link to a remote host. A project that is not remote has no
/// state at all (`None` where an `Option<ConnectionState>` is expected).
#[derive(Clone, Copy, Debug, PartialEq, Eq, Structural)]
pub enum ConnectionState {
    Connecting,
    Connected,
    Disconnected,
    HeartbeatMissed,
    Reconnecting,
}

/// New work may be scheduled only for a local project or a connected remote one.
pub open spec fn permits_scheduling(state: Option<ConnectionState>) -> bool {
    match state {
        None => true,
        Some(ConnectionState::Connected) => true,
        Some(_) => false,
    }
}

/// The connection gate: decides whether scheduling may proceed.
pub fn scheduling_allowed(state: Option<ConnectionState>) -> (r: bool)
    ensures
        r == permits_scheduling(state),
{
    match state {
        None | Some(ConnectionState::Connected) => true,
        Some(ConnectionState::Connecting)
        | Some(ConnectionState::Disconnected)
        | Some(ConnectionState::HeartbeatMissed)
        | Some(ConnectionState::Reconnecting) => false,
    }
}

} // verus!
