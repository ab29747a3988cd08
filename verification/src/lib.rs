//! A client for a websocket ticker feed, written as a pure state machine.
//!
//! The client owns one session to a market-data endpoint. It never touches the
//! transport itself: every event of the transport is handed to
//! [`Model::update`], which moves the session to its next state and answers
//! with the one [`Effect`] that the caller has to carry out on the connection.

pub mod laws;
pub mod message;
pub mod session;

pub use message::{DecodeError, DecodeErrorView, Msg, MsgView, WsAction, WsRequest, WsRequestView,
    WsResponse, WsResponseView, WsStatus};
pub use session::{DisplayState, DisplayStateView, Effect, EffectView, Model, ModelView, Outcome,
    OutcomeView, SessionState};
