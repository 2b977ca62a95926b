//! Admission of client connections against an optional limit on concurrent
//! connections.
use vstd::prelude::*;

verus! {

/// Whether a new connection is admitted while `active` connections are open.
pub fn admits_connection(max_connections: Option<usize>, active: usize) -> (r: bool)
    ensures
        r == match max_connections {
            Some(max) => active < max,
            None => true,
        },
{
    match max_connections {
        Some(max) => active < max,
        None => true,
    }
}

/// Whether the limit is reached with `active` connections open.
pub fn is_at_capacity(max_connections: Option<usize>, active: usize) -> (r: bool)
    ensures
        r == !admits_connection_spec(max_connections, active),
{
    !admits_connection(max_connections, active)
}

/// Whether a new connection is admitted while `active` connections are open.
pub open spec fn admits_connection_spec(max_connections: Option<usize>, active: usize) -> bool {
    match max_connections {
        Some(max) => active < max,
        None => true,
    }
}

/// How many more connections the limit allows (`None` without a limit).
pub fn available_capacity(max_connections: Option<usize>, active: usize) -> (r: Option<usize>)
    ensures
        r == match max_connections {
            Some(max) => Some(if active < max { (max - active) as usize } else { 0usize }),
            None => None::<usize>,
        },
{
    match max_connections {
        Some(max) => Some(if active < max { max - active } else { 0 }),
        None => None,
    }
}

/// What happens to the server's count of open connections.
pub enum ConnectionEvent {
    /// A client connects; it is served only if the limit admits it.
    Arrived,
    /// A served client's session ends.
    Closed,
}

/// The count of open connections after `events`, starting from `active`: an
/// arrival is counted when `admits_connection` lets it in, a closed session
/// is taken off.
pub open spec fn active_after(max_connections: Option<usize>, active: nat, events: Seq<ConnectionEvent>) -> nat
    decreases events.len(),
{
    if events.len() == 0 {
        active
    } else {
        let a = active_after(max_connections, active, events.drop_last());
        match events.last() {
            ConnectionEvent::Arrived => if match max_connections {
                Some(max) => a < max,
                None => true,
            } {
                a + 1
            } else {
                a
            },
            ConnectionEvent::Closed => if a > 0 {
                (a - 1) as nat
            } else {
                0
            },
        }
    }
}

/// The connection limit holds: starting at or below the limit, the count of
/// open connections stays at or below it whatever clients arrive and leave,
/// since a client is served only while fewer than the limit are open.
pub proof fn law_active_within_limit(max: usize, active: nat, events: Seq<ConnectionEvent>)
    requires
        active <= max,
    ensures
        active_after(Some(max), active, events) <= max,
    decreases events.len(),
{
    if events.len() > 0 {
        law_active_within_limit(max, active, events.drop_last());
    }
}

} // verus!
