//! Establishing a TLS-secured client stream to a remote name resolver.
//!
//! A [`TlsClientStreamBuilder`] gathers trust anchors and an optional client
//! identity. Building it gives a [`ConnectionAttempt`] and the
//! [`SendHandle`] that belongs to it. The attempt performs no I/O: its
//! driver reports what happened on the network as [`Event`]s and performs
//! the [`Action`]s that the attempt asks for, in the order connect,
//! handshake, adapt. Frames sent through the handle wait until the stream
//! is ready and are discarded if it never is.
//!
//! The library is written against a [`Platform`], which names the native
//! types of the TLS provider and of the scheduler. For platforms whose
//! provider is native-tls, [`connector::configure`] prepares the connector
//! that the handshake is made with.
//!
//! Every function is verified against its contract, and [`laws`] proves
//! what holds of whole runs of an attempt and its handle.

pub mod attempt;
pub mod builder;
pub mod connector;
pub mod endpoint;
pub mod laws;
pub mod platform;
pub mod send_handle;
pub mod session;

pub use attempt::{
    Action, ActionView, AttemptView, ConnectionAttempt, EstablishError, Event, HandshakeRequest,
    HandshakeRequestView, Phase, StageView, Transition,
};
pub use builder::{BuilderCall, Configuration, TlsClientStreamBuilder};
pub use connector::configure;
pub use endpoint::SocketAddress;
pub use platform::Platform;
pub use send_handle::{Outbox, SendError, SendHandle};
pub use session::{Input, Session};
