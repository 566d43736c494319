//! Request dispatcher: decodes inbound payloads, allocates request
//! identifiers through the registry, routes to handlers, and queues or
//! returns encoded responses.
//!
//! The two entry points are structurally identical: app-scoped traffic is
//! one-shot request/response with no channel context; channel-scoped
//! traffic is bound to a channel id and may start a streaming task. The
//! dispatcher holds no state of its own across calls: side effects are
//! confined to registry mutation and, for streaming, handing back a task
//! for the caller to run.

use vstd::prelude::*;
use vstd::string::StringExecFns;

use crate::codec::{
    dec_app_request, dec_port_request, decode_app_request, decode_port_request, enc_app_response,
    encode_app_response,
};
use crate::messages::{
    spec_next_request_id, next_request_id, AppRequest, AppRequestPayload, AppRequestPayloadView,
    AppResponse, AppResponsePayload, AppResponsePayloadView, PortRequest, PortRequestPayload,
    PortRequestPayloadView, PortResponse, PortResponsePayload, PortResponsePayloadView, Request,
    RequestId, RequestView, Response, ResponseHeaderView, ResponseView, StreamingResponsePayload,
    StreamingResponsePayloadView, StreamingStartedStatus, StreamingStartedStatusView,
};
use crate::registry::{Channel, ChannelId, ChannelRegistry, PortError};
use crate::streaming::StreamingTask;

verus! {

/// Upper bound of the streaming acceptance policy: a request for this many
/// items or more is rejected.
pub const MAX_STREAMING_NUM_ITEMS: u64 = 10;

/// Whether the acceptance policy lets a streaming request through.
pub open spec fn spec_accepts_streaming(num_items: u64) -> bool {
    0 < num_items < MAX_STREAMING_NUM_ITEMS
}

/// The status answered to a streaming request: rejection with a reason for
/// zero or too many items, acceptance otherwise.
pub open spec fn spec_started_status(num_items: u64) -> StreamingStartedStatusView {
    if num_items == 0 {
        StreamingStartedStatusView::Rejected { reason: Some("no items requested"@) }
    } else if num_items >= MAX_STREAMING_NUM_ITEMS {
        StreamingStartedStatusView::Rejected { reason: Some("too many items requested"@) }
    } else {
        StreamingStartedStatusView::Accepted
    }
}

/// The reply owed to an app-scoped request: the client token echoed, the
/// assigned request id recorded, and the version string reported.
pub open spec fn spec_app_reply(
    req: RequestView<AppRequestPayloadView>,
    request_id: RequestId,
    version: Seq<char>,
) -> ResponseView<AppResponsePayloadView> {
    ResponseView {
        header: ResponseHeaderView { client_token: req.header.client_token, request_id },
        payload: AppResponsePayloadView::OptionsInfo { version },
    }
}

/// The reply owed to a channel-scoped request: the client token echoed, the
/// assigned request id recorded, and a payload answering the request
/// (`Pong` for a ping, the policy's `Started` status for a streaming
/// request).
pub open spec fn spec_port_reply(
    req: RequestView<PortRequestPayloadView>,
    request_id: RequestId,
) -> ResponseView<PortResponsePayloadView> {
    ResponseView {
        header: ResponseHeaderView { client_token: req.header.client_token, request_id },
        payload: match req.payload {
            PortRequestPayloadView::Ping => PortResponsePayloadView::Pong,
            PortRequestPayloadView::StartStreaming { num_items } => {
                PortResponsePayloadView::Streaming(
                    StreamingResponsePayloadView::Started {
                        status: spec_started_status(num_items),
                    },
                )
            },
        },
    }
}

/// The coordinator's whole state: the global request-identifier counter and
/// the registry of connected channels. Rebuilt from zero on each activation;
/// nothing persists across restarts.
pub struct App {
    /// The last request identifier issued by the global dispatcher.
    pub last_request_id: RequestId,
    /// The connected channels.
    pub connected_ports: ChannelRegistry,
}

impl App {
    /// The registry invariant holds.
    pub open spec fn well_formed(&self) -> bool {
        self.connected_ports.well_formed()
    }

    /// A coordinator with no channels and no request issued yet.
    pub fn new() -> (r: Self)
        ensures
            r.well_formed(),
            r.last_request_id == 0,
            r.connected_ports.channels() == Map::<ChannelId, Channel>::empty(),
            r.connected_ports.last_channel_id == 0,
    {
        App { last_request_id: 0, connected_ports: ChannelRegistry::new() }
    }

    /// Advances and returns the global request-identifier counter.
    pub fn next_request_id(&mut self) -> (r: RequestId)
        ensures
            r == spec_next_request_id(old(self).last_request_id),
            final(self).last_request_id == r,
            final(self).connected_ports == old(self).connected_ports,
    {
        let issued = next_request_id(self.last_request_id);
        self.last_request_id = issued;
        issued
    }

    /// Registers a new channel; see `ChannelRegistry::connect`.
    pub fn connect_port(&mut self) -> (r: Option<ChannelId>)
        requires
            old(self).well_formed(),
        ensures
            final(self).well_formed(),
            final(self).last_request_id == old(self).last_request_id,
            old(self).connected_ports.last_channel_id == u64::MAX ==> r is None && *final(self)
                == *old(self),
            old(self).connected_ports.last_channel_id < u64::MAX ==> {
                let id = (old(self).connected_ports.last_channel_id + 1) as u64;
                &&& r == Some(id)
                &&& !old(self).connected_ports.is_connected(id)
                &&& final(self).connected_ports.last_channel_id == id
                &&& final(self).connected_ports.is_connected(id)
                &&& final(self).connected_ports.channels()[id].last_request_id == 0
                &&& final(self).connected_ports.outbox_of(id) =~= Seq::<
                    ResponseView<PortResponsePayloadView>,
                >::empty()
                &&& final(self).connected_ports.others_unchanged(&old(self).connected_ports, id)
            },
    {
        self.connected_ports.connect()
    }

    /// Removes and returns a channel; see `ChannelRegistry::disconnect`.
    pub fn disconnect_port(&mut self, port_id: ChannelId) -> (r: Option<Channel>)
        requires
            old(self).well_formed(),
        ensures
            final(self).well_formed(),
            final(self).last_request_id == old(self).last_request_id,
            final(self).connected_ports.last_channel_id == old(
                self,
            ).connected_ports.last_channel_id,
            final(self).connected_ports.channels() == old(self).connected_ports.channels().remove(
                port_id,
            ),
            !final(self).connected_ports.is_connected(port_id),
            old(self).connected_ports.is_connected(port_id) ==> (r matches Some(ch) && ch == old(
                self,
            ).connected_ports.channels()[port_id]),
            !old(self).connected_ports.is_connected(port_id) ==> r is None,
    {
        self.connected_ports.disconnect(port_id)
    }

    /// Advances a channel's request-identifier counter; see
    /// `ChannelRegistry::next_request_id`.
    pub fn next_port_request_id(&mut self, port_id: ChannelId) -> (r: Result<RequestId, PortError>)
        requires
            old(self).well_formed(),
        ensures
            final(self).well_formed(),
            final(self).last_request_id == old(self).last_request_id,
            final(self).connected_ports.last_channel_id == old(
                self,
            ).connected_ports.last_channel_id,
            old(self).connected_ports.is_connected(port_id) ==> {
                let issued = spec_next_request_id(
                    old(self).connected_ports.channels()[port_id].last_request_id,
                );
                &&& r == Ok::<RequestId, PortError>(issued)
                &&& final(self).connected_ports.is_connected(port_id)
                &&& final(self).connected_ports.channels()[port_id].last_request_id == issued
                &&& final(self).connected_ports.channels()[port_id].outbox == old(
                    self,
                ).connected_ports.channels()[port_id].outbox
                &&& final(self).connected_ports.others_unchanged(
                    &old(self).connected_ports,
                    port_id,
                )
            },
            !old(self).connected_ports.is_connected(port_id) ==> r == Err::<RequestId, PortError>(
                PortError::NotConnected,
            ) && final(self).connected_ports.channels() == old(self).connected_ports.channels(),
    {
        self.connected_ports.next_request_id(port_id)
    }

    /// Queues a message toward a channel's foreground context; see
    /// `ChannelRegistry::post`.
    pub fn post_port_message(&mut self, port_id: ChannelId, msg: PortResponse) -> (r: Result<
        (),
        PortError,
    >)
        requires
            old(self).well_formed(),
        ensures
            final(self).well_formed(),
            final(self).last_request_id == old(self).last_request_id,
            final(self).connected_ports.last_channel_id == old(
                self,
            ).connected_ports.last_channel_id,
            old(self).connected_ports.is_connected(port_id) ==> {
                &&& r == Ok::<(), PortError>(())
                &&& final(self).connected_ports.is_connected(port_id)
                &&& final(self).connected_ports.outbox_of(port_id) =~= old(
                    self,
                ).connected_ports.outbox_of(port_id).push(msg@)
                &&& final(self).connected_ports.channels()[port_id].last_request_id == old(
                    self,
                ).connected_ports.channels()[port_id].last_request_id
                &&& final(self).connected_ports.others_unchanged(
                    &old(self).connected_ports,
                    port_id,
                )
            },
            !old(self).connected_ports.is_connected(port_id) ==> r == Err::<(), PortError>(
                PortError::NotConnected,
            ) && final(self).connected_ports.channels() == old(self).connected_ports.channels(),
    {
        self.connected_ports.post(port_id, msg)
    }
}

/// Handles a decoded app-scoped request under an already-assigned request
/// identifier. The version string is read at call time, not cached.
pub fn handle_app_request(request_id: RequestId, request: AppRequest, version: &str) -> (r:
    AppResponse)
    ensures
        r@ == spec_app_reply(request@, request_id, version@),
{
    let Request { header, payload } = request;
    let response_payload = match payload {
        AppRequestPayload::GetOptionsInfo => AppResponsePayload::OptionsInfo {
            version: String::from_str(version),
        },
    };
    Response { header: header.into_response(request_id), payload: response_payload }
}

/// Handles a decoded channel-scoped request under an already-assigned
/// request identifier.
///
/// A ping is answered with `Pong` and starts nothing. A streaming request
/// is answered synchronously with its `Started` status; exactly when the
/// acceptance policy lets it through, a fresh `Pending` task bound to the
/// channel, the request id and the request header is handed back for the
/// caller to run. The `Started` response is produced before any streaming
/// work begins.
pub fn handle_port_request(port_id: ChannelId, request_id: RequestId, request: PortRequest) -> (r:
    (PortResponse, Option<StreamingTask>))
    ensures
        r.0@ == spec_port_reply(request@, request_id),
        (request@.payload matches PortRequestPayloadView::StartStreaming { num_items }
            && spec_accepts_streaming(num_items)) <==> r.1 is Some,
        r.1 matches Some(task) ==> {
            &&& task.port_id == port_id
            &&& task.request_id == request_id
            &&& task.request_header == request.header
            &&& task.item_count == 0
            &&& task.status is Pending
        },
{
    let Request { header, payload } = request;
    match payload {
        PortRequestPayload::Ping => {
            let response = Response {
                header: header.into_response(request_id),
                payload: PortResponsePayload::Pong,
            };
            (response, None)
        },
        PortRequestPayload::StartStreaming { num_items } => {
            let response_header = header.duplicate();
            let (status, task) = if num_items == 0 {
                (
                    StreamingStartedStatus::Rejected {
                        reason: Some(String::from_str("no items requested")),
                    },
                    None,
                )
            } else if num_items >= MAX_STREAMING_NUM_ITEMS {
                (
                    StreamingStartedStatus::Rejected {
                        reason: Some(String::from_str("too many items requested")),
                    },
                    None,
                )
            } else {
                let task = StreamingTask::new(port_id, request_id, header);
                (StreamingStartedStatus::Accepted, Some(task))
            };
            let response = Response {
                header: response_header.into_response(request_id),
                payload: PortResponsePayload::Streaming(
                    StreamingResponsePayload::Started { status },
                ),
            };
            (response, task)
        },
    }
}

/// Handles one inbound app-scoped message, as bytes in and bytes out.
///
/// A global request identifier is allocated first; decoding the payload
/// happens under it. On decode failure no response is produced — the caller
/// may be left waiting, which is accepted behavior for malformed input —
/// and the coordinator is otherwise unchanged. On success the encoded reply
/// is returned for the caller to hand to the host's response callback.
pub fn handle_app_message(app: &mut App, bytes: &[u8], version: &str) -> (r: Option<Vec<u8>>)
    requires
        old(app).well_formed(),
    ensures
        final(app).well_formed(),
        final(app).last_request_id == spec_next_request_id(old(app).last_request_id),
        final(app).connected_ports == old(app).connected_ports,
        dec_app_request(bytes@) is None ==> r is None,
        dec_app_request(bytes@) matches Some(req) ==> (r matches Some(out) && out@
            == enc_app_response(
            spec_app_reply(req, spec_next_request_id(old(app).last_request_id), version@),
        )),
{
    let request_id = app.next_request_id();
    match decode_app_request(bytes) {
        None => None,
        Some(request) => {
            let response = handle_app_request(request_id, request, version);
            Some(encode_app_response(&response))
        },
    }
}

/// Handles one inbound channel-scoped message.
///
/// A request identifier is allocated from the channel's own counter; when
/// the channel is unknown the message is dropped whole. Decoding happens
/// under the allocated identifier; on decode failure no response is queued.
/// Otherwise the reply — `Pong`, or the streaming `Started` status — is
/// queued on the channel's outbox synchronously, and exactly when a
/// streaming request is accepted the fresh `Pending` task is handed back
/// for the caller to run.
pub fn handle_port_message(app: &mut App, port_id: ChannelId, bytes: &[u8]) -> (r: Option<
    StreamingTask,
>)
    requires
        old(app).well_formed(),
    ensures
        final(app).well_formed(),
        final(app).last_request_id == old(app).last_request_id,
        final(app).connected_ports.last_channel_id == old(app).connected_ports.last_channel_id,
        !old(app).connected_ports.is_connected(port_id) ==> r is None
            && final(app).connected_ports.channels() == old(app).connected_ports.channels(),
        old(app).connected_ports.is_connected(port_id) ==> {
            let issued = spec_next_request_id(
                old(app).connected_ports.channels()[port_id].last_request_id,
            );
            &&& final(app).connected_ports.is_connected(port_id)
            &&& final(app).connected_ports.channels()[port_id].last_request_id == issued
            &&& final(app).connected_ports.others_unchanged(&old(app).connected_ports, port_id)
            &&& dec_port_request(bytes@) is None ==> r is None
                && final(app).connected_ports.outbox_of(port_id) =~= old(
                app,
            ).connected_ports.outbox_of(port_id)
            &&& dec_port_request(bytes@) matches Some(req) ==> {
                &&& final(app).connected_ports.outbox_of(port_id) =~= old(
                    app,
                ).connected_ports.outbox_of(port_id).push(spec_port_reply(req, issued))
                &&& ((req.payload matches PortRequestPayloadView::StartStreaming { num_items }
                    && spec_accepts_streaming(num_items)) <==> r is Some)
                &&& r matches Some(task) ==> {
                    &&& task.port_id == port_id
                    &&& task.request_id == issued
                    &&& task.request_header@ == req.header
                    &&& task.item_count == 0
                    &&& task.status is Pending
                }
            }
        },
{
    let request_id = match app.next_port_request_id(port_id) {
        Ok(issued) => issued,
        Err(_) => {
            return None;
        },
    };
    match decode_port_request(bytes) {
        None => None,
        Some(request) => {
            let (response, task) = handle_port_request(port_id, request_id, request);
            match app.post_port_message(port_id, response) {
                Ok(()) => {},
                Err(_) => {},
            }
            task
        },
    }
}

} // verus!
