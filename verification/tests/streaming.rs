use channel_coordinator::messages::{
    PortResponsePayload, RequestHeader, StreamingFinishedStatus, StreamingResponsePayload,
};
use channel_coordinator::registry::{ChannelRegistry, PortError};
use channel_coordinator::streaming::{
    run_producer, StreamingTask, StreamingTaskError, StreamingTaskStatus,
};

fn header(token: Option<&str>) -> RequestHeader {
    RequestHeader { client_token: token.map(String::from) }
}

#[test]
fn next_item_returns_increasing_counts() {
    let mut registry = ChannelRegistry::new();
    let id = registry.connect().unwrap();
    let mut task = StreamingTask::new(id, 1, header(None));
    assert_eq!(task.next_item(&mut registry), Ok(1));
    assert_eq!(task.next_item(&mut registry), Ok(2));
    assert_eq!(task.next_item(&mut registry), Ok(3));
    assert_eq!(task.item_count, 3);
}

#[test]
fn items_carry_headers_and_counts() {
    let mut registry = ChannelRegistry::new();
    let id = registry.connect().unwrap();
    let mut task = StreamingTask::new(id, 9, header(Some("tok")));
    task.next_item(&mut registry).unwrap();
    task.finish(&mut registry, StreamingFinishedStatus::Completed).unwrap();
    let msgs = registry.take_outbox(id).unwrap();
    assert_eq!(msgs.len(), 2);
    for msg in &msgs {
        assert_eq!(msg.header.client_token, Some(String::from("tok")));
        assert_eq!(msg.header.request_id, 9);
    }
    assert_eq!(
        msgs[0].payload,
        PortResponsePayload::Streaming(StreamingResponsePayload::Item { item_count: 1 }),
    );
    assert_eq!(
        msgs[1].payload,
        PortResponsePayload::Streaming(StreamingResponsePayload::Finished {
            status: StreamingFinishedStatus::Completed,
            item_count: 1,
        }),
    );
}

#[test]
fn run_producer_emits_items_then_finished() {
    let mut registry = ChannelRegistry::new();
    let id = registry.connect().unwrap();
    let mut task = StreamingTask::new(id, 1, header(None));
    run_producer(&mut task, &mut registry, 3);
    assert!(matches!(task.status, StreamingTaskStatus::Finished));
    let msgs = registry.take_outbox(id).unwrap();
    assert_eq!(msgs.len(), 4);
    for (i, msg) in msgs.iter().enumerate().take(3) {
        assert_eq!(
            msg.payload,
            PortResponsePayload::Streaming(StreamingResponsePayload::Item {
                item_count: (i + 1) as u64,
            }),
        );
    }
    assert_eq!(
        msgs[3].payload,
        PortResponsePayload::Streaming(StreamingResponsePayload::Finished {
            status: StreamingFinishedStatus::Completed,
            item_count: 3,
        }),
    );
}

#[test]
fn abort_after_natural_finish_is_not_pending() {
    let mut registry = ChannelRegistry::new();
    let id = registry.connect().unwrap();
    let mut task = StreamingTask::new(id, 1, header(None));
    run_producer(&mut task, &mut registry, 2);
    let outcome = task.abort(&mut registry, Some(String::from("timeout expired")));
    assert_eq!(outcome, Err(StreamingTaskError::NotPending));
    // Only one Finished message ever exists per task.
    let msgs = registry.take_outbox(id).unwrap();
    let finished: Vec<_> = msgs
        .iter()
        .filter(|m| {
            matches!(
                m.payload,
                PortResponsePayload::Streaming(StreamingResponsePayload::Finished { .. }),
            )
        })
        .collect();
    assert_eq!(finished.len(), 1);
}

#[test]
fn finish_twice_is_not_pending() {
    let mut registry = ChannelRegistry::new();
    let id = registry.connect().unwrap();
    let mut task = StreamingTask::new(id, 1, header(None));
    assert_eq!(task.finish(&mut registry, StreamingFinishedStatus::Completed), Ok(()));
    assert_eq!(
        task.finish(&mut registry, StreamingFinishedStatus::Completed),
        Err(StreamingTaskError::NotPending),
    );
    assert_eq!(registry.take_outbox(id).unwrap().len(), 1);
}

#[test]
fn next_item_after_finish_is_not_pending() {
    let mut registry = ChannelRegistry::new();
    let id = registry.connect().unwrap();
    let mut task = StreamingTask::new(id, 1, header(None));
    task.finish(&mut registry, StreamingFinishedStatus::Completed).unwrap();
    assert_eq!(task.next_item(&mut registry), Err(StreamingTaskError::NotPending));
    assert_eq!(task.item_count, 0);
}

#[test]
fn abort_pending_task_emits_aborted_with_reason() {
    let mut registry = ChannelRegistry::new();
    let id = registry.connect().unwrap();
    let mut task = StreamingTask::new(id, 4, header(None));
    task.next_item(&mut registry).unwrap();
    assert_eq!(task.abort(&mut registry, Some(String::from("timeout expired"))), Ok(()));
    assert!(matches!(task.status, StreamingTaskStatus::Finished));
    let msgs = registry.take_outbox(id).unwrap();
    assert_eq!(
        msgs[1].payload,
        PortResponsePayload::Streaming(StreamingResponsePayload::Finished {
            status: StreamingFinishedStatus::Aborted {
                reason: Some(String::from("timeout expired")),
            },
            item_count: 1,
        }),
    );
}

#[test]
fn disconnect_mid_stream_fails_sends_but_still_finishes() {
    let mut registry = ChannelRegistry::new();
    let id = registry.connect().unwrap();
    let mut task = StreamingTask::new(id, 1, header(None));
    assert_eq!(task.next_item(&mut registry), Ok(1));
    registry.disconnect(id);
    // Subsequent sends fail with NotConnected, yet the counter advances, so
    // the iteration bound is still exhausted, never retried past.
    assert_eq!(
        task.next_item(&mut registry),
        Err(StreamingTaskError::Port(PortError::NotConnected)),
    );
    assert_eq!(task.item_count, 2);
    // The terminal transition still happens: the task reaches Finished.
    assert_eq!(
        task.finish(&mut registry, StreamingFinishedStatus::Completed),
        Err(StreamingTaskError::Port(PortError::NotConnected)),
    );
    assert!(matches!(task.status, StreamingTaskStatus::Finished));
    // And stays finished: no further emission is possible.
    assert_eq!(task.next_item(&mut registry), Err(StreamingTaskError::NotPending));
}

#[test]
fn exhausted_item_counter_reports_overflow() {
    let mut registry = ChannelRegistry::new();
    let id = registry.connect().unwrap();
    let mut task = StreamingTask {
        port_id: id,
        request_id: 1,
        request_header: header(None),
        item_count: u64::MAX,
        status: StreamingTaskStatus::Pending,
    };
    assert_eq!(task.next_item(&mut registry), Err(StreamingTaskError::ItemCountOverflow));
    // The failed attempt emitted nothing and changed nothing.
    assert_eq!(task.item_count, u64::MAX);
    assert!(matches!(task.status, StreamingTaskStatus::Pending));
    assert_eq!(registry.take_outbox(id).unwrap(), vec![]);
}

#[test]
fn run_producer_on_departed_channel_reaches_finished() {
    let mut registry = ChannelRegistry::new();
    let id = registry.connect().unwrap();
    registry.disconnect(id);
    let mut task = StreamingTask::new(id, 1, header(None));
    run_producer(&mut task, &mut registry, 3);
    assert!(matches!(task.status, StreamingTaskStatus::Finished));
    assert_eq!(task.item_count, 3);
    assert_eq!(registry.take_outbox(id), Err(PortError::NotConnected));
}
