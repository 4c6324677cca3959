//! How the vibration loop answers the events of the device server client.
use vstd::prelude::*;

verus! {

/// The kinds of event that the device server client reports.
#[derive(Clone, Copy, Debug, PartialEq, Eq)]
pub enum ClientEvent {
    ScanningFinished,
    ServerConnect,
    ServerDisconnect,
    DeviceAdded,
    DeviceRemoved,
    PingTimeout,
    Error,
}

/// What the loop does about an event.
#[derive(Clone, Copy, Debug, PartialEq, Eq)]
pub enum EventResponse {
    /// Note the event and go on.
    Continue,
    /// Connect to the server again, then go on.
    Reconnect,
    /// Stop the devices and leave the loop.
    Shutdown,
}

/// A lost server connection is made again, an error ends the loop, and every
/// other event is only noted.
pub fn respond_to_event(event: ClientEvent) -> (r: EventResponse)
    ensures
        r == (match event {
            ClientEvent::ServerDisconnect => EventResponse::Reconnect,
            ClientEvent::Error => EventResponse::Shutdown,
            _ => EventResponse::Continue,
        }),
{
    match event {
        ClientEvent::ScanningFinished => EventResponse::Continue,
        ClientEvent::ServerConnect => EventResponse::Continue,
        ClientEvent::ServerDisconnect => EventResponse::Reconnect,
        ClientEvent::DeviceAdded => EventResponse::Continue,
        ClientEvent::DeviceRemoved => EventResponse::Continue,
        ClientEvent::PingTimeout => EventResponse::Continue,
        ClientEvent::Error => EventResponse::Shutdown,
    }
}

/// The length of one tick of the vibration loop, in milliseconds. Ticks are
/// kept long so that the devices are not flooded with commands.
pub const TICK_TIME_MILLIS: u64 = 1250;

/// The seconds to wait before trying again to reach the server.
pub const RECONNECT_DELAY_SECS: u64 = 5;

/// What follows an attempt to connect to the server.
#[derive(Clone, Copy, Debug, PartialEq, Eq)]
pub enum ConnectStep {
    /// The client is connected; the loop goes on.
    Connected,
    /// Wait this many seconds, then try again.
    RetryAfterSecs(u64),
}

/// Connecting is retried without end, every `RECONNECT_DELAY_SECS` seconds,
/// until an attempt succeeds.
pub fn after_connect_attempt(succeeded: bool) -> (r: ConnectStep)
    ensures
        r == (if succeeded {
            ConnectStep::Connected
        } else {
            ConnectStep::RetryAfterSecs(RECONNECT_DELAY_SECS)
        }),
{
    if succeeded {
        ConnectStep::Connected
    } else {
        ConnectStep::RetryAfterSecs(RECONNECT_DELAY_SECS)
    }
}

} // verus!
