//! The session state machine: one connection, from its request to its end.
//!
//! A session is live while it is `Connecting` or `Opened`; only then is a
//! connection held. `Lost` and `Disconnected` are final: nothing brings a
//! session back to a live state, and a new [`Model`] has to be created to
//! connect again.

use vstd::prelude::*;
use crate::message::{DecodeError, DecodeErrorView, Msg, MsgView, WsAction, WsRequest,
    WsRequestView};

verus! {

/// Where a session stands in its life.
#[derive(Clone, Copy, Debug, PartialEq, Eq, Structural)]
pub enum SessionState {
    /// The connection was requested and has not been reported open yet.
    Connecting,
    /// The transport reported the connection open.
    Opened,
    /// The connection was closed by the other side, or failed.
    Lost,
    /// The consumer closed the connection.
    Disconnected,
}

impl SessionState {
    /// Whether a connection is held in this state.
    pub open spec fn live(self) -> bool {
        self is Connecting || self is Opened
    }
}

/// What the caller has to do on the connection after an event.
#[derive(Clone, Debug, PartialEq, Eq)]
pub enum Effect {
    /// Nothing is to be done.
    Nothing,
    /// Open a connection to this endpoint and hold its handle.
    Connect(String),
    /// Send this request over the connection.
    Subscribe(WsRequest),
    /// An inbound frame could not be decoded: report why.
    Report(DecodeError),
    /// The connection is gone: let go of its handle.
    Release,
    /// Take the handle of the connection and close it.
    Cancel,
}

/// The mathematical value of an [`Effect`].
pub enum EffectView {
    Nothing,
    Connect(Seq<char>),
    Subscribe(WsRequestView),
    Report(DecodeErrorView),
    Release,
    Cancel,
}

impl View for Effect {
    type V = EffectView;

    open spec fn view(&self) -> EffectView {
        match self {
            Effect::Nothing => EffectView::Nothing,
            Effect::Connect(endpoint) => EffectView::Connect(endpoint@),
            Effect::Subscribe(request) => EffectView::Subscribe(request@),
            Effect::Report(error) => EffectView::Report(error@),
            Effect::Release => EffectView::Release,
            Effect::Cancel => EffectView::Cancel,
        }
    }
}

/// What one event gave: whether the display is to be drawn again, and the
/// effect to carry out.
#[derive(Clone, Debug, PartialEq, Eq)]
pub struct Outcome {
    pub redraw: bool,
    pub effect: Effect,
}

/// The mathematical value of an [`Outcome`].
pub struct OutcomeView {
    pub redraw: bool,
    pub effect: EffectView,
}

impl View for Outcome {
    type V = OutcomeView;

    open spec fn view(&self) -> OutcomeView {
        OutcomeView { redraw: self.redraw, effect: self.effect@ }
    }
}

/// What the consumer sees of the client.
#[derive(Clone, Debug, PartialEq, Eq)]
pub struct DisplayState {
    /// The best bid of the latest ticker, if one has arrived.
    pub best_bid: Option<String>,
    /// Whether a connection is held.
    pub connection_present: bool,
}

/// The mathematical value of a [`DisplayState`].
pub struct DisplayStateView {
    pub best_bid: Option<Seq<char>>,
    pub connection_present: bool,
}

impl View for DisplayState {
    type V = DisplayStateView;

    open spec fn view(&self) -> DisplayStateView {
        DisplayStateView {
            best_bid: match self.best_bid {
                Some(price) => Some(price@),
                None => None,
            },
            connection_present: self.connection_present,
        }
    }
}

impl DisplayStateView {
    /// The line that stands for the price on the page.
    pub open spec fn heading(self) -> Seq<char> {
        match self.best_bid {
            Some(price) => price,
            None => "Data hasn't fetched yet."@,
        }
    }
}

/// The client: the latest best bid and the state of its one session.
#[derive(Debug)]
pub struct Model {
    data: Option<String>,
    state: SessionState,
}

/// The mathematical value of a [`Model`].
pub struct ModelView {
    pub best_bid: Option<Seq<char>>,
    pub state: SessionState,
}

impl ModelView {
    /// The client right after its creation.
    pub open spec fn initial() -> ModelView {
        ModelView { best_bid: None, state: SessionState::Connecting }
    }

    /// What the consumer sees of this client.
    pub open spec fn display(self) -> DisplayStateView {
        DisplayStateView { best_bid: self.best_bid, connection_present: self.state.live() }
    }

    /// The client after one event.
    ///
    /// An opening counts only while the session is `Connecting`, so a session
    /// is opened once. A disconnect and a loss count only while a connection
    /// is held, and both keep the price that was last shown. A decoded ticker
    /// replaces the best bid in every state; a frame that failed to decode
    /// changes nothing.
    pub open spec fn next(self, msg: MsgView) -> ModelView {
        match msg {
            MsgView::WsAction(WsAction::Disconnect) => if self.state.live() {
                ModelView { state: SessionState::Disconnected, ..self }
            } else {
                self
            },
            MsgView::WsAction(WsAction::Lost) => if self.state.live() {
                ModelView { state: SessionState::Lost, ..self }
            } else {
                self
            },
            MsgView::WsReady(Ok(ticker)) => ModelView { best_bid: Some(ticker.best_bid), ..self },
            MsgView::WsReady(Err(_)) => self,
            MsgView::WsOpened => if self.state is Connecting {
                ModelView { state: SessionState::Opened, ..self }
            } else {
                self
            },
        }
    }

    /// What the caller has to do on the connection for one event: subscribe
    /// when the session opens, close the connection on a disconnect, let go
    /// of it on a loss, and report a frame that failed to decode.
    pub open spec fn effect(self, msg: MsgView) -> EffectView {
        match msg {
            MsgView::WsAction(WsAction::Disconnect) => if self.state.live() {
                EffectView::Cancel
            } else {
                EffectView::Nothing
            },
            MsgView::WsAction(WsAction::Lost) => if self.state.live() {
                EffectView::Release
            } else {
                EffectView::Nothing
            },
            MsgView::WsReady(Ok(_)) => EffectView::Nothing,
            MsgView::WsReady(Err(error)) => EffectView::Report(error),
            MsgView::WsOpened => if self.state is Connecting {
                EffectView::Subscribe(WsRequestView::ticker_subscription())
            } else {
                EffectView::Nothing
            },
        }
    }

    /// Whether the display is to be drawn again after one event: never for an
    /// opening, for a disconnect only if it closed a connection, and always
    /// for a frame or a loss.
    pub open spec fn redraw(self, msg: MsgView) -> bool {
        match msg {
            MsgView::WsAction(WsAction::Disconnect) => self.state.live(),
            MsgView::WsAction(WsAction::Lost) => true,
            MsgView::WsReady(_) => true,
            MsgView::WsOpened => false,
        }
    }

    /// Redraw and effect of one event together.
    pub open spec fn outcome(self, msg: MsgView) -> OutcomeView {
        OutcomeView { redraw: self.redraw(msg), effect: self.effect(msg) }
    }
}

impl View for Model {
    type V = ModelView;

    closed spec fn view(&self) -> ModelView {
        ModelView {
            best_bid: match self.data {
                Some(price) => Some(price@),
                None => None,
            },
            state: self.state,
        }
    }
}

impl Model {
    /// Starts a session: the client is `Connecting`, has no price yet, and
    /// asks for a connection to `endpoint`.
    pub fn create(endpoint: &str) -> (started: (Model, Effect))
        ensures
            started.0@ == ModelView::initial(),
            started.1@ == EffectView::Connect(endpoint@),
    {
        (
            Model { data: None, state: SessionState::Connecting },
            Effect::Connect(endpoint.to_owned()),
        )
    }

    /// Feeds one event to the client and says what is to be done for it.
    pub fn update(&mut self, msg: Msg) -> (outcome: Outcome)
        ensures
            final(self)@ == old(self)@.next(msg@),
            outcome@ == old(self)@.outcome(msg@),
    {
        let live = self.connection_present();
        match msg {
            Msg::WsAction(WsAction::Disconnect) => {
                if live {
                    self.state = SessionState::Disconnected;
                    Outcome { redraw: true, effect: Effect::Cancel }
                } else {
                    Outcome { redraw: false, effect: Effect::Nothing }
                }
            },
            Msg::WsAction(WsAction::Lost) => {
                if live {
                    self.state = SessionState::Lost;
                    Outcome { redraw: true, effect: Effect::Release }
                } else {
                    Outcome { redraw: true, effect: Effect::Nothing }
                }
            },
            Msg::WsReady(Ok(ticker)) => {
                self.data = Some(ticker.best_bid);
                Outcome { redraw: true, effect: Effect::Nothing }
            },
            Msg::WsReady(Err(error)) => Outcome { redraw: true, effect: Effect::Report(error) },
            Msg::WsOpened => {
                if self.state == SessionState::Connecting {
                    self.state = SessionState::Opened;
                    Outcome {
                        redraw: false,
                        effect: Effect::Subscribe(WsRequest::ticker_subscription()),
                    }
                } else {
                    Outcome { redraw: false, effect: Effect::Nothing }
                }
            },
        }
    }

    /// The state of the session.
    pub fn state(&self) -> (state: SessionState)
        ensures
            state == self@.state,
    {
        self.state
    }

    /// Whether a connection is held.
    pub fn connection_present(&self) -> (present: bool)
        ensures
            present == self@.state.live(),
    {
        match self.state {
            SessionState::Connecting => true,
            SessionState::Opened => true,
            SessionState::Lost => false,
            SessionState::Disconnected => false,
        }
    }

    /// A snapshot of what the consumer sees.
    pub fn current_display(&self) -> (display: DisplayState)
        ensures
            display@ == self@.display(),
    {
        let best_bid = match &self.data {
            Some(price) => Some(price.clone()),
            None => None,
        };
        DisplayState { best_bid, connection_present: self.connection_present() }
    }

    /// The line that stands for the price on the page: the best bid, or a
    /// notice that none has arrived.
    pub fn view_data(&self) -> (text: String)
        ensures
            text@ == self@.display().heading(),
    {
        match &self.data {
            Some(price) => price.clone(),
            None => "Data hasn't fetched yet.".to_owned(),
        }
    }

    /// Whether the control that disconnects is switched off: it is whenever no
    /// connection is held.
    pub fn disconnect_disabled(&self) -> (disabled: bool)
        ensures
            disabled == !self@.display().connection_present,
    {
        !self.connection_present()
    }
}

} // verus!
