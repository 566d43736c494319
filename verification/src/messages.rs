//! Message protocol data contracts: request identifiers, headers, and the
//! request/response payload families shared by all other components.

use vstd::prelude::*;

verus! {

/// Identifier of a request, unique within the scope that issued it
/// (the global dispatcher, or one channel).
pub type RequestId = u64;

/// The first identifier ever issued in a scope.
pub const FIRST_REQUEST_ID: RequestId = 1;

/// The counter value of a scope before its first request.
pub const INITIAL_REQUEST_ID: RequestId = 0;

/// Successor of a request identifier: counts up by one and skips 0 on
/// wraparound, so an issued identifier is never 0.
pub open spec fn spec_next_request_id(last_request_id: RequestId) -> RequestId {
    if last_request_id == u64::MAX {
        FIRST_REQUEST_ID
    } else {
        (last_request_id + 1) as u64
    }
}

/// Advances a request identifier counter.
pub fn next_request_id(last_request_id: RequestId) -> (r: RequestId)
    ensures
        r == spec_next_request_id(last_request_id),
{
    if last_request_id == u64::MAX {
        FIRST_REQUEST_ID
    } else {
        last_request_id + 1
    }
}

/// The identifier sequence is strictly increasing until wraparound and an
/// issued identifier is never 0.
pub proof fn lemma_next_request_id_increasing(last_request_id: RequestId)
    ensures
        spec_next_request_id(last_request_id) != 0,
        last_request_id < u64::MAX ==> spec_next_request_id(last_request_id) > last_request_id,
        last_request_id == u64::MAX ==> spec_next_request_id(last_request_id) == FIRST_REQUEST_ID,
{
}

/// Model of an optional piece of text: the characters, if any.
pub open spec fn opt_string_view(text: &Option<String>) -> Option<Seq<char>> {
    match text {
        Some(inner) => Some(inner@),
        None => None,
    }
}

/// Mathematical model of a request header.
pub struct RequestHeaderView {
    pub client_token: Option<Seq<char>>,
}

/// Header of a request: an optional opaque client token, echoed back
/// unchanged in the response.
#[derive(Debug, Clone, PartialEq, Eq)]
pub struct RequestHeader {
    pub client_token: Option<String>,
}

impl View for RequestHeader {
    type V = RequestHeaderView;

    open spec fn view(&self) -> RequestHeaderView {
        RequestHeaderView {
            client_token: opt_string_view(&self.client_token),
        }
    }
}

impl RequestHeader {
    /// A header without a client token.
    pub fn new() -> (r: Self)
        ensures
            r@.client_token is None,
    {
        RequestHeader { client_token: None }
    }

    /// A header carrying the same client token, byte for byte.
    pub fn duplicate(&self) -> (r: Self)
        ensures
            r@ == self@,
    {
        let client_token = match &self.client_token {
            Some(token) => Some(token.clone()),
            None => None,
        };
        RequestHeader { client_token }
    }

    /// Turns the request header into the header of a response answering the
    /// request: the client token is kept byte for byte and the assigned
    /// request identifier is recorded.
    pub fn into_response(self, request_id: RequestId) -> (r: ResponseHeader)
        ensures
            r@.client_token == self@.client_token,
            r@.request_id == request_id,
    {
        let RequestHeader { client_token } = self;
        ResponseHeader { client_token, request_id }
    }
}

/// Mathematical model of a response header.
pub struct ResponseHeaderView {
    pub client_token: Option<Seq<char>>,
    pub request_id: RequestId,
}

/// Header of a response: the client token of the request it answers plus the
/// request identifier that was assigned at dispatch time.
#[derive(Debug, Clone, PartialEq, Eq)]
pub struct ResponseHeader {
    pub client_token: Option<String>,
    pub request_id: RequestId,
}

impl View for ResponseHeader {
    type V = ResponseHeaderView;

    open spec fn view(&self) -> ResponseHeaderView {
        ResponseHeaderView {
            client_token: opt_string_view(&self.client_token),
            request_id: self.request_id,
        }
    }
}

/// Mathematical model of a request.
pub struct RequestView<P> {
    pub header: RequestHeaderView,
    pub payload: P,
}

/// A request message: header plus payload variant.
#[derive(Debug, Clone, PartialEq, Eq)]
pub struct Request<T> {
    pub header: RequestHeader,
    pub payload: T,
}

impl<T: View> View for Request<T> {
    type V = RequestView<T::V>;

    open spec fn view(&self) -> RequestView<T::V> {
        RequestView { header: self.header@, payload: self.payload@ }
    }
}

impl<T> Request<T> {
    /// A request without a client token.
    pub fn new(payload: T) -> (r: Self)
        ensures
            r.header@.client_token is None,
            r.payload == payload,
    {
        Request { header: RequestHeader::new(), payload }
    }
}

/// Mathematical model of a response.
pub struct ResponseView<P> {
    pub header: ResponseHeaderView,
    pub payload: P,
}

/// A response message: header plus payload variant.
#[derive(Debug, Clone, PartialEq, Eq)]
pub struct Response<T> {
    pub header: ResponseHeader,
    pub payload: T,
}

impl<T: View> View for Response<T> {
    type V = ResponseView<T::V>;

    open spec fn view(&self) -> ResponseView<T::V> {
        ResponseView { header: self.header@, payload: self.payload@ }
    }
}

/// Mathematical model of an app-scoped request payload.
pub enum AppRequestPayloadView {
    GetOptionsInfo,
}

/// App-scoped (one-shot, not bound to a channel) request payload.
#[derive(Debug, Clone, PartialEq, Eq)]
pub enum AppRequestPayload {
    GetOptionsInfo,
}

impl View for AppRequestPayload {
    type V = AppRequestPayloadView;

    open spec fn view(&self) -> AppRequestPayloadView {
        match self {
            AppRequestPayload::GetOptionsInfo => AppRequestPayloadView::GetOptionsInfo,
        }
    }
}

/// App-scoped request message.
pub type AppRequest = Request<AppRequestPayload>;

/// Mathematical model of an app-scoped response payload.
pub enum AppResponsePayloadView {
    OptionsInfo { version: Seq<char> },
}

/// App-scoped response payload.
#[derive(Debug, Clone, PartialEq, Eq)]
pub enum AppResponsePayload {
    OptionsInfo { version: String },
}

impl View for AppResponsePayload {
    type V = AppResponsePayloadView;

    open spec fn view(&self) -> AppResponsePayloadView {
        match self {
            AppResponsePayload::OptionsInfo { version } => AppResponsePayloadView::OptionsInfo {
                version: version@,
            },
        }
    }
}

/// App-scoped response message.
pub type AppResponse = Response<AppResponsePayload>;

/// Mathematical model of a channel-scoped request payload.
pub enum PortRequestPayloadView {
    Ping,
    StartStreaming { num_items: u64 },
}

/// Channel-scoped request payload.
#[derive(Debug, Clone, PartialEq, Eq)]
pub enum PortRequestPayload {
    Ping,
    StartStreaming { num_items: u64 },
}

impl View for PortRequestPayload {
    type V = PortRequestPayloadView;

    open spec fn view(&self) -> PortRequestPayloadView {
        match self {
            PortRequestPayload::Ping => PortRequestPayloadView::Ping,
            PortRequestPayload::StartStreaming { num_items } => {
                PortRequestPayloadView::StartStreaming { num_items: *num_items }
            },
        }
    }
}

/// Channel-scoped request message.
pub type PortRequest = Request<PortRequestPayload>;

/// Mathematical model of the status of a `Started` streaming response.
pub enum StreamingStartedStatusView {
    Accepted,
    Rejected { reason: Option<Seq<char>> },
}

/// Status reported by the synchronous `Started` streaming response.
#[derive(Debug, Clone, PartialEq, Eq)]
pub enum StreamingStartedStatus {
    /// The request has been accepted and will be processed.
    Accepted,
    /// The request has been rejected.
    Rejected { reason: Option<String> },
}

impl View for StreamingStartedStatus {
    type V = StreamingStartedStatusView;

    open spec fn view(&self) -> StreamingStartedStatusView {
        match self {
            StreamingStartedStatus::Accepted => StreamingStartedStatusView::Accepted,
            StreamingStartedStatus::Rejected { reason } => StreamingStartedStatusView::Rejected {
                reason: opt_string_view(reason),
            },
        }
    }
}

/// Mathematical model of the status of a `Finished` streaming response.
pub enum StreamingFinishedStatusView {
    Completed,
    Aborted { reason: Option<Seq<char>> },
}

/// Status reported by the terminal `Finished` streaming response.
#[derive(Debug, Clone, PartialEq, Eq)]
pub enum StreamingFinishedStatus {
    /// Processing has been completed.
    Completed,
    /// Processing has been aborted prematurely.
    Aborted { reason: Option<String> },
}

impl View for StreamingFinishedStatus {
    type V = StreamingFinishedStatusView;

    open spec fn view(&self) -> StreamingFinishedStatusView {
        match self {
            StreamingFinishedStatus::Completed => StreamingFinishedStatusView::Completed,
            StreamingFinishedStatus::Aborted { reason } => StreamingFinishedStatusView::Aborted {
                reason: opt_string_view(reason),
            },
        }
    }
}

/// Mathematical model of a streaming response payload.
pub enum StreamingResponsePayloadView {
    Started { status: StreamingStartedStatusView },
    Item { item_count: u64 },
    Finished { status: StreamingFinishedStatusView, item_count: u64 },
}

/// Streaming sub-protocol response payload.
///
/// Receivers must treat `Started`, `Item` and `Finished` messages as
/// potentially arriving out of order relative to each other: the `Started`
/// response is synthesized synchronously but posted through the same
/// transport as the asynchronously produced items.
#[derive(Debug, Clone, PartialEq, Eq)]
pub enum StreamingResponsePayload {
    Started {
        status: StreamingStartedStatus,
    },
    /// A streaming item. The `item_count` serves as a 1-based index for
    /// (re-)ordering received item messages.
    Item {
        item_count: u64,
    },
    /// Request processing has finished. `item_count` is the total number of
    /// item messages that have been sent; no more follow.
    Finished {
        status: StreamingFinishedStatus,
        item_count: u64,
    },
}

impl View for StreamingResponsePayload {
    type V = StreamingResponsePayloadView;

    open spec fn view(&self) -> StreamingResponsePayloadView {
        match self {
            StreamingResponsePayload::Started { status } => {
                StreamingResponsePayloadView::Started { status: status@ }
            },
            StreamingResponsePayload::Item { item_count } => {
                StreamingResponsePayloadView::Item { item_count: *item_count }
            },
            StreamingResponsePayload::Finished { status, item_count } => {
                StreamingResponsePayloadView::Finished {
                    status: status@,
                    item_count: *item_count,
                }
            },
        }
    }
}

/// Mathematical model of a channel-scoped response payload.
pub enum PortResponsePayloadView {
    Pong,
    Streaming(StreamingResponsePayloadView),
}

/// Channel-scoped response payload.
#[derive(Debug, Clone, PartialEq, Eq)]
pub enum PortResponsePayload {
    Pong,
    Streaming(StreamingResponsePayload),
}

impl View for PortResponsePayload {
    type V = PortResponsePayloadView;

    open spec fn view(&self) -> PortResponsePayloadView {
        match self {
            PortResponsePayload::Pong => PortResponsePayloadView::Pong,
            PortResponsePayload::Streaming(streaming) => {
                PortResponsePayloadView::Streaming(streaming@)
            },
        }
    }
}

/// Channel-scoped response message.
pub type PortResponse = Response<PortResponsePayload>;

} // verus!
