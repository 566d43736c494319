use channel_coordinator::messages::{PortResponsePayload, Response, ResponseHeader};
use channel_coordinator::registry::{ChannelRegistry, PortError, FIRST_CHANNEL_ID};

fn pong(request_id: u64) -> Response<PortResponsePayload> {
    Response {
        header: ResponseHeader { client_token: None, request_id },
        payload: PortResponsePayload::Pong,
    }
}

#[test]
fn connect_assigns_distinct_increasing_ids_from_one() {
    let mut registry = ChannelRegistry::new();
    let mut ids = Vec::new();
    for _ in 0..5 {
        ids.push(registry.connect().expect("id space not exhausted"));
    }
    assert_eq!(ids, vec![1, 2, 3, 4, 5]);
    assert_eq!(ids[0], FIRST_CHANNEL_ID);
    for i in 0..ids.len() {
        for j in 0..i {
            assert_ne!(ids[i], ids[j]);
        }
    }
}

#[test]
fn ids_are_not_reused_after_disconnect() {
    let mut registry = ChannelRegistry::new();
    let first = registry.connect().unwrap();
    registry.disconnect(first);
    let second = registry.connect().unwrap();
    assert_ne!(first, second);
    assert_eq!(second, 2);
}

#[test]
fn exhausted_id_space_registers_nothing() {
    let mut registry = ChannelRegistry {
        last_channel_id: u64::MAX,
        ctx_by_id: std::collections::HashMap::new(),
    };
    assert_eq!(registry.connect(), None);
    assert_eq!(registry.last_channel_id, u64::MAX);
}

#[test]
fn post_to_disconnected_channel_is_not_connected() {
    let mut registry = ChannelRegistry::new();
    let id = registry.connect().unwrap();
    assert!(registry.disconnect(id).is_some());
    assert_eq!(registry.post(id, pong(1)), Err(PortError::NotConnected));
}

#[test]
fn disconnect_twice_yields_no_channel_and_no_error() {
    let mut registry = ChannelRegistry::new();
    let id = registry.connect().unwrap();
    assert!(registry.disconnect(id).is_some());
    assert!(registry.disconnect(id).is_none());
}

#[test]
fn disconnect_unknown_id_yields_nothing() {
    let mut registry = ChannelRegistry::new();
    assert!(registry.disconnect(77).is_none());
}

#[test]
fn next_request_id_advances_per_channel_independently() {
    let mut registry = ChannelRegistry::new();
    let a = registry.connect().unwrap();
    let b = registry.connect().unwrap();
    assert_eq!(registry.next_request_id(a), Ok(1));
    assert_eq!(registry.next_request_id(a), Ok(2));
    assert_eq!(registry.next_request_id(b), Ok(1));
    assert_eq!(registry.next_request_id(a), Ok(3));
    assert_eq!(registry.next_request_id(b), Ok(2));
}

#[test]
fn next_request_id_on_unknown_channel_fails() {
    let mut registry = ChannelRegistry::new();
    assert_eq!(registry.next_request_id(1), Err(PortError::NotConnected));
    let id = registry.connect().unwrap();
    registry.disconnect(id);
    assert_eq!(registry.next_request_id(id), Err(PortError::NotConnected));
}

#[test]
fn posted_messages_come_back_in_order() {
    let mut registry = ChannelRegistry::new();
    let id = registry.connect().unwrap();
    assert_eq!(registry.post(id, pong(1)), Ok(()));
    assert_eq!(registry.post(id, pong(2)), Ok(()));
    let drained = registry.take_outbox(id).unwrap();
    assert_eq!(drained, vec![pong(1), pong(2)]);
    // The outbox is empty afterwards and the channel stays connected.
    assert_eq!(registry.take_outbox(id).unwrap(), vec![]);
    assert!(registry.connected(id));
}

#[test]
fn take_outbox_on_unknown_channel_fails() {
    let mut registry = ChannelRegistry::new();
    assert_eq!(registry.take_outbox(4), Err(PortError::NotConnected));
}

#[test]
fn disconnect_returns_channel_with_pending_outbox() {
    let mut registry = ChannelRegistry::new();
    let id = registry.connect().unwrap();
    registry.post(id, pong(1)).unwrap();
    let channel = registry.disconnect(id).expect("was connected");
    assert_eq!(channel.outbox, vec![pong(1)]);
    assert!(!registry.connected(id));
}

#[test]
fn posting_on_one_channel_leaves_others_untouched() {
    let mut registry = ChannelRegistry::new();
    let a = registry.connect().unwrap();
    let b = registry.connect().unwrap();
    registry.post(a, pong(1)).unwrap();
    assert_eq!(registry.take_outbox(b).unwrap(), vec![]);
    assert_eq!(registry.take_outbox(a).unwrap(), vec![pong(1)]);
}
