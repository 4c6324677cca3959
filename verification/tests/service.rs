use luabutt::address::get_ws_addr;
use luabutt::events::{
    after_connect_attempt, respond_to_event, ClientEvent, ConnectStep, EventResponse,
    RECONNECT_DELAY_SECS,
};
use luabutt::messaging::{push_result, PushMsgError, SendOutcome};

#[test]
fn address_names_the_port() {
    assert_eq!(get_ws_addr(12345), "ws://localhost:12345");
    assert_eq!(get_ws_addr(0), "ws://localhost:0");
    assert_eq!(get_ws_addr(7), "ws://localhost:7");
    assert_eq!(get_ws_addr(10), "ws://localhost:10");
    assert_eq!(get_ws_addr(65535), "ws://localhost:65535");
}

#[test]
fn address_matches_std_formatting_for_every_port() {
    for port in 0..=u16::MAX {
        assert_eq!(get_ws_addr(port), format!("ws://localhost:{}", port));
    }
}

#[test]
fn events_are_answered() {
    assert_eq!(respond_to_event(ClientEvent::ServerDisconnect), EventResponse::Reconnect);
    assert_eq!(respond_to_event(ClientEvent::Error), EventResponse::Shutdown);
    for e in [
        ClientEvent::ScanningFinished,
        ClientEvent::ServerConnect,
        ClientEvent::DeviceAdded,
        ClientEvent::DeviceRemoved,
        ClientEvent::PingTimeout,
    ] {
        assert_eq!(respond_to_event(e), EventResponse::Continue);
    }
}

#[test]
fn push_results() {
    assert_eq!(push_result(None), Err(PushMsgError::NotInitialized));
    assert_eq!(push_result(Some(SendOutcome::Full)), Err(PushMsgError::Full));
    assert_eq!(push_result(Some(SendOutcome::Sent)), Ok(()));
}

#[test]
fn connecting_is_retried_every_five_seconds() {
    assert_eq!(RECONNECT_DELAY_SECS, 5);
    assert_eq!(after_connect_attempt(true), ConnectStep::Connected);
    assert_eq!(after_connect_attempt(false), ConnectStep::RetryAfterSecs(5));
}

#[test]
fn a_tick_lasts_one_and_a_quarter_seconds() {
    assert_eq!(luabutt::events::TICK_TIME_MILLIS, 1250);
}
