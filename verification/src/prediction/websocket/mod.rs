//! Streaming of real-time market data over one multiplexed socket.
//!
//! One session owns the socket and the registry of subscriptions. Callers,
//! the keepalive timer and the socket reach it only through events; it answers
//! each event with the effects to perform. [`session::SessionLoop`] holds those
//! decisions, [`registry::Registry`] the routing table, and [`types`] the
//! messages.

pub mod guarantees;
pub mod handshake;
pub mod registry;
pub mod session;
pub mod subscription;
pub mod types;

use vstd::prelude::*;

verus! {

/// `tungstenite::Error`, the error of the socket. The library only carries it:
/// nothing is claimed of what it holds.
#[verifier::external_type_specification]
#[verifier::external_body]
pub struct ExSocketError(tokio_tungstenite::tungstenite::Error);

/// Default URL of the streaming endpoint.
pub const DEFAULT_WS_URL: &'static str = "wss://prediction-markets-api.dflow.net/api/v1/ws";

/// Default ping interval in seconds
pub const DEFAULT_PING_INTERVAL_SECS: u64 = 30;

/// Errors that can occur when using the streaming client.
#[derive(Debug)]
pub enum DflowWsError {
    /// The socket could not be opened or written to.
    ConnectionFailed(tokio_tungstenite::tungstenite::Error),
    /// The connection was closed.
    ConnectionClosed(String),
    /// A message could not be written as JSON.
    SerializeError(serde_json::Error),
    /// The request did not reach the session: its channel is closed.
    SendFailed,
    /// The subscription was refused.
    SubscriptionFailed(String),
}

/// An error as the contracts see it: its kind, the message it carries, and the
/// socket's own error where it came in with an event.
pub enum DflowWsErrorView {
    ConnectionFailed(tokio_tungstenite::tungstenite::Error),
    ConnectionClosed(Seq<char>),
    SerializeError,
    SendFailed,
    SubscriptionFailed(Seq<char>),
}

impl DeepView for DflowWsError {
    type V = DflowWsErrorView;

    open spec fn deep_view(&self) -> DflowWsErrorView {
        match self {
            DflowWsError::ConnectionFailed(error) => DflowWsErrorView::ConnectionFailed(*error),
            DflowWsError::ConnectionClosed(message) => DflowWsErrorView::ConnectionClosed(message@),
            DflowWsError::SerializeError(_) => DflowWsErrorView::SerializeError,
            DflowWsError::SendFailed => DflowWsErrorView::SendFailed,
            DflowWsError::SubscriptionFailed(message) => DflowWsErrorView::SubscriptionFailed(
                message@,
            ),
        }
    }
}

/// Result type of the streaming client.
pub type WsResult<T> = Result<T, DflowWsError>;

} // verus!
