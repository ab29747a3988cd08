//! The messages of the feed: what the transport and the consumer report to the
//! client, and the two frames of the wire protocol as plain values.

use vstd::prelude::*;
use vstd::std_specs::convert::FromSpecImpl;

verus! {

/// The two ways in which a session ends.
#[derive(Clone, Copy, Debug, PartialEq, Eq, Structural)]
pub enum WsAction {
    /// The consumer asks to close the connection.
    Disconnect,
    /// The transport reports that the connection is gone.
    Lost,
}

/// What the transport notifies about the connection itself.
#[derive(Clone, Copy, Debug, PartialEq, Eq, Structural)]
pub enum WsStatus {
    /// The connection was opened.
    Opened,
    /// The connection was closed by the other side.
    Closed,
    /// The connection failed.
    Error,
}

/// An inbound ticker frame after decoding. Only these three members of the
/// frame are kept; the kind is carried as it came and is not compared with
/// `"ticker"`.
#[derive(Clone, Debug, PartialEq, Eq)]
pub struct WsResponse {
    pub req_type: String,
    pub best_bid: String,
    pub best_ask: String,
}

/// The mathematical value of a [`WsResponse`].
pub struct WsResponseView {
    pub req_type: Seq<char>,
    pub best_bid: Seq<char>,
    pub best_ask: Seq<char>,
}

impl View for WsResponse {
    type V = WsResponseView;

    open spec fn view(&self) -> WsResponseView {
        WsResponseView {
            req_type: self.req_type@,
            best_bid: self.best_bid@,
            best_ask: self.best_ask@,
        }
    }
}

/// Why an inbound frame could not be decoded, in the decoder's words.
#[derive(Clone, Debug, PartialEq, Eq)]
pub struct DecodeError {
    pub reason: String,
}

/// The mathematical value of a [`DecodeError`].
pub struct DecodeErrorView {
    pub reason: Seq<char>,
}

impl View for DecodeError {
    type V = DecodeErrorView;

    open spec fn view(&self) -> DecodeErrorView {
        DecodeErrorView { reason: self.reason@ }
    }
}

/// The outbound frame that asks the feed for channels of products.
#[derive(Clone, Debug, PartialEq, Eq)]
pub struct WsRequest {
    pub req_type: String,
    pub product_ids: Vec<String>,
    pub channels: Vec<String>,
}

/// The mathematical value of a [`WsRequest`].
pub struct WsRequestView {
    pub req_type: Seq<char>,
    pub product_ids: Seq<Seq<char>>,
    pub channels: Seq<Seq<char>>,
}

impl View for WsRequest {
    type V = WsRequestView;

    open spec fn view(&self) -> WsRequestView {
        WsRequestView {
            req_type: self.req_type@,
            product_ids: self.product_ids.deep_view(),
            channels: self.channels.deep_view(),
        }
    }
}

impl WsRequestView {
    /// The one request that the client ever sends: the ticker channel of
    /// BTC-USD.
    pub open spec fn ticker_subscription() -> WsRequestView {
        WsRequestView {
            req_type: "subscribe"@,
            product_ids: seq!["BTC-USD"@],
            channels: seq!["ticker"@],
        }
    }
}

impl WsRequest {
    /// Builds the subscription to the ticker channel of BTC-USD.
    pub fn ticker_subscription() -> (request: WsRequest)
        ensures
            request@ == WsRequestView::ticker_subscription(),
    {
        let mut product_ids: Vec<String> = Vec::new();
        product_ids.push("BTC-USD".to_owned());
        let mut channels: Vec<String> = Vec::new();
        channels.push("ticker".to_owned());
        let request = WsRequest { req_type: "subscribe".to_owned(), product_ids, channels };
        assert(request.product_ids.deep_view() =~= seq!["BTC-USD"@]);
        assert(request.channels.deep_view() =~= seq!["ticker"@]);
        request
    }
}

/// One event for the client.
#[derive(Debug, PartialEq, Eq)]
pub enum Msg {
    /// The session ends, by the consumer's wish or by loss.
    WsAction(WsAction),
    /// An inbound frame arrived, and this is what decoding it gave.
    WsReady(Result<WsResponse, DecodeError>),
    /// The transport reports that the connection is open.
    WsOpened,
}

/// The mathematical value of a [`Msg`].
pub enum MsgView {
    WsAction(WsAction),
    WsReady(Result<WsResponseView, DecodeErrorView>),
    WsOpened,
}

impl View for Msg {
    type V = MsgView;

    open spec fn view(&self) -> MsgView {
        match self {
            Msg::WsAction(action) => MsgView::WsAction(*action),
            Msg::WsReady(Ok(response)) => MsgView::WsReady(Ok(response@)),
            Msg::WsReady(Err(error)) => MsgView::WsReady(Err(error@)),
            Msg::WsOpened => MsgView::WsOpened,
        }
    }
}

impl MsgView {
    /// The event that a notification of the transport stands for. A close and
    /// an error are not told apart: both are the loss of the connection.
    pub open spec fn of_status(status: WsStatus) -> MsgView {
        match status {
            WsStatus::Opened => MsgView::WsOpened,
            WsStatus::Closed => MsgView::WsAction(WsAction::Lost),
            WsStatus::Error => MsgView::WsAction(WsAction::Lost),
        }
    }
}

impl Msg {
    /// Turns a notification of the transport into the event it stands for.
    pub fn from_status(status: WsStatus) -> (msg: Msg)
        ensures
            msg@ == MsgView::of_status(status),
    {
        match status {
            WsStatus::Opened => Msg::WsOpened,
            WsStatus::Closed => Msg::WsAction(WsAction::Lost),
            WsStatus::Error => Msg::WsAction(WsAction::Lost),
        }
    }
}

impl From<WsAction> for Msg {
    fn from(action: WsAction) -> (msg: Msg) {
        Msg::WsAction(action)
    }
}

impl FromSpecImpl<WsAction> for Msg {
    open spec fn obeys_from_spec() -> bool {
        true
    }

    open spec fn from_spec(action: WsAction) -> Msg {
        Msg::WsAction(action)
    }
}

} // verus!
