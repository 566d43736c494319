//! Streaming task engine: a cancellable producer of a bounded sequence of
//! item messages plus one terminal message, raced by a supervising abort.
//!
//! A task is a two-state machine, `Pending` then `Finished`, and the
//! transition is one-directional. Every operation on an already-finished
//! task fails with `NotPending` instead of being silently ignored: a second
//! finish would violate the invariant that no message follows the
//! `Finished` message. A send failure (the owning channel disconnected)
//! does not alter state resolution: the task transitions as if the send had
//! been attempted, so the producer exhausts its iteration bound and the
//! task never leaks.

use vstd::prelude::*;

use crate::messages::{
    PortResponsePayload, PortResponsePayloadView, Response, ResponseView, RequestHeader,
    RequestId, ResponseHeader, ResponseHeaderView, StreamingFinishedStatus,
    StreamingResponsePayload, StreamingResponsePayloadView,
};
use crate::registry::{ChannelId, ChannelRegistry, PortError};

verus! {

/// Status of a streaming task: transitions go from `Pending` to `Finished`
/// only.
#[derive(Debug, Clone, Copy, PartialEq, Eq, Structural)]
pub enum StreamingTaskStatus {
    Pending,
    Finished,
}

/// Failure of a streaming task operation.
#[derive(Debug, Clone, PartialEq, Eq, Structural)]
pub enum StreamingTaskError {
    /// A registry send failed; the channel is unknown or departed.
    Port(PortError),
    /// The operation needs a `Pending` task but the task has finished.
    /// Informational when it comes from a racing abort or completion.
    NotPending,
    /// The item counter is exhausted; the producer abandons the task.
    ItemCountOverflow,
}

/// One in-progress bounded-count streaming response sequence.
///
/// The task holds only the owning channel's id, never the live channel, and
/// re-resolves it through the registry on each send.
pub struct StreamingTask {
    /// The channel the responses are posted to.
    pub port_id: ChannelId,
    /// The request being answered; stamped into every response header.
    pub request_id: RequestId,
    /// Header of the originating request; its client token is echoed in
    /// every response.
    pub request_header: RequestHeader,
    /// How many items have been emitted so far.
    pub item_count: u64,
    /// Whether the task is still running.
    pub status: StreamingTaskStatus,
}

impl StreamingTask {
    /// The header carried by every response of the task.
    pub open spec fn response_header_view(&self) -> ResponseHeaderView {
        ResponseHeaderView {
            client_token: self.request_header@.client_token,
            request_id: self.request_id,
        }
    }

    /// A fresh `Pending` task answering `request_id` on `port_id`.
    pub fn new(port_id: ChannelId, request_id: RequestId, request_header: RequestHeader) -> (r:
        Self)
        ensures
            r.port_id == port_id,
            r.request_id == request_id,
            r.request_header == request_header,
            r.item_count == 0,
            r.status is Pending,
    {
        StreamingTask { port_id, request_id, request_header, item_count: 0, status:
            StreamingTaskStatus::Pending }
    }

    /// Builds the header of one response of the task: the client token is
    /// copied and the originating request id recorded.
    pub fn new_response_header(&self) -> (r: ResponseHeader)
        ensures
            r@ == self.response_header_view(),
    {
        let client_token = match &self.request_header.client_token {
            Some(token) => Some(token.clone()),
            None => None,
        };
        RequestHeader { client_token }.into_response(self.request_id)
    }

    /// Emits the next item message.
    ///
    /// Validates the `Pending` state, increments the item counter with
    /// overflow checking, and posts an `Item` response carrying the new
    /// count through the registry. When the task is no longer `Pending`
    /// or the counter would overflow, nothing changes and the error says
    /// which. When the channel has departed the counter still advances
    /// (the send is treated as attempted) but `Port(NotConnected)` is
    /// reported and nothing is posted.
    pub fn next_item(&mut self, registry: &mut ChannelRegistry) -> (r: Result<
        u64,
        StreamingTaskError,
    >)
        requires
            old(registry).well_formed(),
        ensures
            final(registry).well_formed(),
            final(self).port_id == old(self).port_id,
            final(self).request_id == old(self).request_id,
            final(self).request_header == old(self).request_header,
            final(self).status == old(self).status,
            old(self).status is Finished ==> r == Err::<u64, StreamingTaskError>(
                StreamingTaskError::NotPending,
            ) && *final(self) == *old(self) && *final(registry) == *old(registry),
            old(self).status is Pending && old(self).item_count == u64::MAX ==> r == Err::<
                u64,
                StreamingTaskError,
            >(StreamingTaskError::ItemCountOverflow) && *final(self) == *old(self)
                && *final(registry) == *old(registry),
            old(self).status is Pending && old(self).item_count < u64::MAX ==> {
                let count = (old(self).item_count + 1) as u64;
                &&& final(self).item_count == count
                &&& old(registry).is_connected(old(self).port_id) ==> {
                    &&& r == Ok::<u64, StreamingTaskError>(count)
                    &&& final(registry).is_connected(old(self).port_id)
                    &&& final(registry).outbox_of(old(self).port_id) =~= old(registry).outbox_of(
                        old(self).port_id,
                    ).push(old(self).item_view(count))
                    &&& final(registry).channels()[old(self).port_id].last_request_id == old(
                        registry,
                    ).channels()[old(self).port_id].last_request_id
                    &&& final(registry).others_unchanged(old(registry), old(self).port_id)
                    &&& final(registry).last_channel_id == old(registry).last_channel_id
                }
                &&& !old(registry).is_connected(old(self).port_id) ==> r == Err::<
                    u64,
                    StreamingTaskError,
                >(StreamingTaskError::Port(PortError::NotConnected)) && final(registry).channels()
                    == old(registry).channels() && final(registry).last_channel_id == old(
                    registry,
                ).last_channel_id
            },
    {
        if !matches!(self.status, StreamingTaskStatus::Pending) {
            return Err(StreamingTaskError::NotPending);
        }
        if self.item_count == u64::MAX {
            return Err(StreamingTaskError::ItemCountOverflow);
        }
        let item_count = self.item_count + 1;
        let payload = PortResponsePayload::Streaming(
            StreamingResponsePayload::Item { item_count },
        );
        let response = Response { header: self.new_response_header(), payload };
        self.item_count = item_count;
        match registry.post(self.port_id, response) {
            Ok(()) => Ok(item_count),
            Err(err) => Err(StreamingTaskError::Port(err)),
        }
    }

    /// Model of the `Item` response carrying `count`.
    pub open spec fn item_view(&self, count: u64) -> ResponseView<PortResponsePayloadView> {
        ResponseView {
            header: self.response_header_view(),
            payload: PortResponsePayloadView::Streaming(
                StreamingResponsePayloadView::Item { item_count: count },
            ),
        }
    }

    /// Model of the `Finished` response with status `status`, as emitted
    /// when the item counter stands at `count`.
    pub open spec fn finished_view(&self, status: StreamingFinishedStatus, count: u64) -> ResponseView<
        PortResponsePayloadView,
    > {
        ResponseView {
            header: self.response_header_view(),
            payload: PortResponsePayloadView::Streaming(
                StreamingResponsePayloadView::Finished { status: status@, item_count: count },
            ),
        }
    }

    /// Transitions the task to `Finished` and emits the terminal message.
    ///
    /// Fails with `NotPending` exactly when the task has already finished;
    /// then nothing changes, so only one `Finished` message ever exists per
    /// task. Otherwise the task finishes even when the send fails because
    /// the channel departed; that failure is reported but does not undo the
    /// transition.
    pub fn finish(&mut self, registry: &mut ChannelRegistry, status: StreamingFinishedStatus) -> (r:
        Result<(), StreamingTaskError>)
        requires
            old(registry).well_formed(),
        ensures
            final(registry).well_formed(),
            final(self).port_id == old(self).port_id,
            final(self).request_id == old(self).request_id,
            final(self).request_header == old(self).request_header,
            final(self).item_count == old(self).item_count,
            old(self).status is Finished ==> r == Err::<(), StreamingTaskError>(
                StreamingTaskError::NotPending,
            ) && *final(self) == *old(self) && *final(registry) == *old(registry),
            old(self).status is Pending ==> {
                &&& final(self).status is Finished
                &&& old(registry).is_connected(old(self).port_id) ==> {
                    &&& r == Ok::<(), StreamingTaskError>(())
                    &&& final(registry).is_connected(old(self).port_id)
                    &&& final(registry).outbox_of(old(self).port_id) =~= old(registry).outbox_of(
                        old(self).port_id,
                    ).push(old(self).finished_view(status, old(self).item_count))
                    &&& final(registry).channels()[old(self).port_id].last_request_id == old(
                        registry,
                    ).channels()[old(self).port_id].last_request_id
                    &&& final(registry).others_unchanged(old(registry), old(self).port_id)
                    &&& final(registry).last_channel_id == old(registry).last_channel_id
                }
                &&& !old(registry).is_connected(old(self).port_id) ==> r == Err::<
                    (),
                    StreamingTaskError,
                >(StreamingTaskError::Port(PortError::NotConnected)) && final(registry).channels()
                    == old(registry).channels() && final(registry).last_channel_id == old(
                    registry,
                ).last_channel_id
            },
    {
        if !matches!(self.status, StreamingTaskStatus::Pending) {
            return Err(StreamingTaskError::NotPending);
        }
        let payload = PortResponsePayload::Streaming(
            StreamingResponsePayload::Finished { status, item_count: self.item_count },
        );
        let response = Response { header: self.new_response_header(), payload };
        self.status = StreamingTaskStatus::Finished;
        match registry.post(self.port_id, response) {
            Ok(()) => Ok(()),
            Err(err) => Err(StreamingTaskError::Port(err)),
        }
    }

    /// Tries to abort the task: a `Finished` transition with status
    /// `Aborted`. After a natural completion this fails with `NotPending`
    /// and produces no additional `Finished` message; that outcome is
    /// informational, not an error to surface.
    pub fn abort(&mut self, registry: &mut ChannelRegistry, reason: Option<String>) -> (r: Result<
        (),
        StreamingTaskError,
    >)
        requires
            old(registry).well_formed(),
        ensures
            final(registry).well_formed(),
            final(self).port_id == old(self).port_id,
            final(self).request_id == old(self).request_id,
            final(self).request_header == old(self).request_header,
            final(self).item_count == old(self).item_count,
            old(self).status is Finished ==> r == Err::<(), StreamingTaskError>(
                StreamingTaskError::NotPending,
            ) && *final(self) == *old(self) && *final(registry) == *old(registry),
            old(self).status is Pending ==> {
                &&& final(self).status is Finished
                &&& old(registry).is_connected(old(self).port_id) ==> {
                    &&& r == Ok::<(), StreamingTaskError>(())
                    &&& final(registry).is_connected(old(self).port_id)
                    &&& final(registry).outbox_of(old(self).port_id) =~= old(registry).outbox_of(
                        old(self).port_id,
                    ).push(
                        old(self).finished_view(
                            StreamingFinishedStatus::Aborted { reason },
                            old(self).item_count,
                        ),
                    )
                    &&& final(registry).others_unchanged(old(registry), old(self).port_id)
                    &&& final(registry).last_channel_id == old(registry).last_channel_id
                }
                &&& !old(registry).is_connected(old(self).port_id) ==> r == Err::<
                    (),
                    StreamingTaskError,
                >(StreamingTaskError::Port(PortError::NotConnected)) && final(registry).channels()
                    == old(registry).channels() && final(registry).last_channel_id == old(
                    registry,
                ).last_channel_id
            },
    {
        self.finish(registry, StreamingFinishedStatus::Aborted { reason })
    }
}

/// The messages a producer run over `num_items` items emits on behalf of
/// `task`: the items carrying counts 1 through `num_items`, in increasing
/// order, then exactly one `Finished` message with status `Completed` and
/// the total item count.
pub open spec fn producer_emission(task: StreamingTask, num_items: u64) -> Seq<
    ResponseView<PortResponsePayloadView>,
> {
    Seq::new(
        (num_items + 1) as nat,
        |i: int|
            if i < num_items {
                task.item_view((i + 1) as u64)
            } else {
                task.finished_view(StreamingFinishedStatus::Completed, num_items)
            },
    )
}

/// Runs a fresh task's producer to completion: emits `num_items` item
/// messages with increasing counts, then transitions the task to `Finished`
/// and emits the terminal `Completed` message.
///
/// When the owning channel is connected, its outbox grows by exactly that
/// message sequence. When it has departed, every send fails with
/// `NotConnected`, nothing is posted anywhere, but the task still runs to
/// its iteration bound and reaches the `Finished` state: no retry goes past
/// the bound and the task does not leak.
///
/// The host glue that wants the items paced apart drives `next_item` and
/// `finish` itself, suspending between steps; this run is the one-sitting
/// form of that same loop.
pub fn run_producer(task: &mut StreamingTask, registry: &mut ChannelRegistry, num_items: u64)
    requires
        old(registry).well_formed(),
        old(task).status is Pending,
        old(task).item_count == 0,
        num_items < u64::MAX,
    ensures
        final(registry).well_formed(),
        final(task).status is Finished,
        final(task).item_count == num_items,
        final(task).port_id == old(task).port_id,
        final(task).request_id == old(task).request_id,
        final(task).request_header == old(task).request_header,
        final(registry).last_channel_id == old(registry).last_channel_id,
        old(registry).is_connected(old(task).port_id) ==> {
            &&& final(registry).is_connected(old(task).port_id)
            &&& final(registry).outbox_of(old(task).port_id) =~= old(registry).outbox_of(
                old(task).port_id,
            ) + producer_emission(*old(task), num_items)
            &&& final(registry).channels()[old(task).port_id].last_request_id == old(
                registry,
            ).channels()[old(task).port_id].last_request_id
            &&& final(registry).others_unchanged(old(registry), old(task).port_id)
        },
        !old(registry).is_connected(old(task).port_id) ==> final(registry).channels() == old(
            registry,
        ).channels(),
{
    let ghost task0 = *old(task);
    let ghost reg0 = *old(registry);
    let id = task.port_id;
    let mut i: u64 = 0;
    while i < num_items
        invariant
            registry.well_formed(),
            task.status is Pending,
            task.item_count == i,
            i <= num_items,
            num_items < u64::MAX,
            task.port_id == task0.port_id,
            task.request_id == task0.request_id,
            task.request_header == task0.request_header,
            id == task0.port_id,
            registry.last_channel_id == reg0.last_channel_id,
            reg0.is_connected(task0.port_id) ==> {
                &&& registry.is_connected(task0.port_id)
                &&& registry.outbox_of(task0.port_id) =~= reg0.outbox_of(task0.port_id)
                    + producer_emission(task0, num_items).take(i as int)
                &&& registry.channels()[task0.port_id].last_request_id == reg0.channels()[
                    task0.port_id
                ].last_request_id
                &&& registry.others_unchanged(&reg0, task0.port_id)
            },
            !reg0.is_connected(task0.port_id) ==> registry.channels() == reg0.channels(),
        decreases num_items - i,
    {
        let ghost outbox_before = if reg0.is_connected(task0.port_id) {
            registry.outbox_of(task0.port_id)
        } else {
            Seq::empty()
        };
        match task.next_item(registry) {
            Ok(_) => {},
            Err(_) => {},
        }
        i = i + 1;
        proof {
            if reg0.is_connected(task0.port_id) {
                assert(outbox_before.push(task0.item_view(i)) =~= reg0.outbox_of(task0.port_id)
                    + producer_emission(task0, num_items).take(i as int));
            }
        }
    }
    match task.finish(registry, StreamingFinishedStatus::Completed) {
        Ok(_) => {},
        Err(_) => {},
    }
    proof {
        if reg0.is_connected(task0.port_id) {
            assert((reg0.outbox_of(task0.port_id) + producer_emission(task0, num_items).take(
                num_items as int,
            )).push(task0.finished_view(StreamingFinishedStatus::Completed, num_items))
                =~= reg0.outbox_of(task0.port_id) + producer_emission(task0, num_items));
        }
    }
}

} // verus!
