use peervault_iroh::connection::{close_signal, ConnectionState, StreamEvent};
use peervault_iroh::endpoint::{
    accept_decision, prepare_endpoint, AcceptEvent, EndpointLifecycle, RelayPlan,
};
use peervault_iroh::errors::PvError;
use peervault_iroh::stream::{RecvHalfState, SendHalfState};

#[test]
fn prepare_accepts_a_32_byte_key_and_no_relays() {
    let setup = prepare_endpoint(Some(vec![3u8; 32]), None).unwrap();
    assert_eq!(setup.identity.export_bytes(), vec![3u8; 32]);
    assert!(matches!(setup.relay, RelayPlan::DefaultRelays));
}

#[test]
fn prepare_refuses_a_bad_key_before_anything_else() {
    let r = prepare_endpoint(Some(vec![3u8; 16]), Some(vec!["://".to_string()]));
    assert!(matches!(r, Err(PvError::InvalidKeyLength)));
}

#[test]
fn prepare_keeps_a_custom_relay_list() {
    let urls = vec!["https://relay.example.com".to_string()];
    let setup = prepare_endpoint(None, Some(urls.clone())).unwrap();
    match setup.relay {
        RelayPlan::CustomRelays(vs) => assert_eq!(vs, urls),
        RelayPlan::DefaultRelays => panic!("expected the custom relay list"),
    }
}

#[test]
fn prepare_treats_an_empty_relay_list_as_default() {
    let setup = prepare_endpoint(None, Some(Vec::new())).unwrap();
    assert!(matches!(setup.relay, RelayPlan::DefaultRelays));
}

#[test]
fn prepare_refuses_an_unparsable_relay_url() {
    let urls = vec!["https://relay.example.com".to_string(), "::: nope".to_string()];
    let r = prepare_endpoint(None, Some(urls));
    assert!(matches!(r, Err(PvError::BindFailed)));
}

#[test]
fn endpoint_close_is_idempotent_and_terminal() {
    let mut lc = EndpointLifecycle::new();
    assert!(lc.is_live());
    assert!(lc.guard().is_ok());
    lc.close();
    lc.close();
    assert!(!lc.is_live());
    assert_eq!(lc.guard(), Err(PvError::EndpointClosed));
}

#[test]
fn pending_accept_resolves_closed_after_close() {
    let mut lc = EndpointLifecycle::new();
    lc.close();
    let r = accept_decision(&lc, AcceptEvent::Inbound("peer".to_string()));
    assert_eq!(r, Err(PvError::EndpointClosed));
}

#[test]
fn accept_while_live_classifies_events() {
    let lc = EndpointLifecycle::new();
    let ok = accept_decision(&lc, AcceptEvent::Inbound("peer".to_string()));
    assert_eq!(ok, Ok("peer".to_string()));
    let failed = accept_decision(&lc, AcceptEvent::HandshakeFailed);
    assert_eq!(failed, Err(PvError::ConnectFailed));
    let closed = accept_decision(&lc, AcceptEvent::ProviderClosed);
    assert_eq!(closed, Err(PvError::EndpointClosed));
}

#[test]
fn connection_keeps_its_remote_identifier() {
    let mut conn = ConnectionState::establish("remote-node".to_string());
    assert_eq!(conn.remote_id(), "remote-node");
    conn.close();
    assert_eq!(conn.remote_id(), "remote-node");
}

#[test]
fn in_flight_open_fails_once_connection_closes() {
    let mut conn = ConnectionState::establish("remote-node".to_string());
    assert!(conn.stream_gate().is_ok());
    conn.close();
    conn.close();
    assert_eq!(conn.stream_gate(), Err(PvError::ConnectionClosed));
    let r = conn.open_stream_decision(StreamEvent::ChannelReady);
    assert_eq!(r, Err(PvError::ConnectionClosed));
}

#[test]
fn open_stream_classifies_provider_refusal() {
    let conn = ConnectionState::establish("remote-node".to_string());
    assert_eq!(conn.open_stream_decision(StreamEvent::ChannelReady), Ok(()));
    assert_eq!(
        conn.open_stream_decision(StreamEvent::OpenRefused),
        Err(PvError::StreamOpenFailed)
    );
    assert_eq!(
        conn.open_stream_decision(StreamEvent::SessionEnded),
        Err(PvError::ConnectionClosed)
    );
}

#[test]
fn outstanding_accept_stream_resolves_when_session_ends() {
    let conn = ConnectionState::establish("remote-node".to_string());
    assert_eq!(conn.accept_stream_decision(StreamEvent::ChannelReady), Ok(()));
    assert_eq!(
        conn.accept_stream_decision(StreamEvent::SessionEnded),
        Err(PvError::ConnectionClosed)
    );
}

#[test]
fn close_signal_is_code_zero_with_reason_close() {
    let (code, reason) = close_signal();
    assert_eq!(code, 0);
    assert_eq!(reason, b"close".to_vec());
}

#[test]
fn send_half_failure_is_terminal() {
    let mut half = SendHalfState::new();
    assert!(half.send_gate().is_ok());
    assert_eq!(half.record_write(true), Ok(()));
    assert_eq!(half.record_write(false), Err(PvError::WriteFailed));
    assert_eq!(half.send_gate(), Err(PvError::WriteFailed));
    assert_eq!(half.finish_decision(), Err(PvError::FinishFailed));
}

#[test]
fn finishing_the_send_half_happens_at_most_once() {
    let mut half = SendHalfState::new();
    assert_eq!(half.finish_decision(), Ok(()));
    assert_eq!(half.finish_decision(), Err(PvError::FinishFailed));
    assert_eq!(half.send_gate(), Err(PvError::WriteFailed));
}

#[test]
fn recv_half_failure_is_terminal() {
    let mut half = RecvHalfState::new();
    assert!(half.receive_gate().is_ok());
    assert_eq!(half.record_read(true), Ok(()));
    assert_eq!(half.record_read(false), Err(PvError::ReadFailed));
    assert_eq!(half.receive_gate(), Err(PvError::ReadFailed));
}
