use vstd::prelude::*;

use crate::endpoint::SocketAddress;
use crate::platform::Platform;
use crate::send_handle::{contents, Outbox, SendHandle};

verus! {

/// How far a connection attempt has come.
#[derive(Clone, Copy, Debug, PartialEq, Eq, Structural)]
pub enum Phase {
    /// Nothing has been asked of the network yet.
    Unstarted,
    /// The TCP connection is being opened.
    Connecting,
    /// The TCP connection is open and the TLS handshake is under way.
    Handshaking,
    /// The encrypted stream was handed to the framing layer.
    Ready,
    /// The attempt failed or was abandoned.
    Failed,
}

impl Phase {
    /// The place of a phase in the life of an attempt.
    pub open spec fn ordinal(self) -> nat {
        match self {
            Phase::Unstarted => 0,
            Phase::Connecting => 1,
            Phase::Handshaking => 2,
            Phase::Ready => 3,
            Phase::Failed => 4,
        }
    }

    /// Whether an attempt in this phase is over.
    pub open spec fn is_final(self) -> bool {
        self == Phase::Ready || self == Phase::Failed
    }
}

/// What the TLS handshake primitive is given besides the connection itself.
pub struct HandshakeRequest<P: Platform> {
    /// The name that the peer's certificate must be issued for.
    pub peer_name: String,
    /// The certificates trusted besides the platform's own, in the order in
    /// which they were configured.
    pub anchors: Vec<P::TrustAnchor>,
    /// The identity to present if the peer asks for one.
    pub identity: Option<P::Identity>,
}

/// What a [`HandshakeRequest`] stands for.
pub ghost struct HandshakeRequestView<P: Platform> {
    pub peer_name: Seq<char>,
    pub anchors: Seq<P::TrustAnchor>,
    pub identity: Option<P::Identity>,
}

impl<P: Platform> View for HandshakeRequest<P> {
    type V = HandshakeRequestView<P>;

    open spec fn view(&self) -> HandshakeRequestView<P> {
        HandshakeRequestView {
            peer_name: self.peer_name@,
            anchors: self.anchors@,
            identity: self.identity,
        }
    }
}

/// Why an attempt failed. The cause is the primitive's own error, passed on
/// as it was reported.
pub enum EstablishError<P: Platform> {
    /// The TCP connection could not be opened.
    Connection(P::ConnectError),
    /// The TLS handshake did not succeed.
    Handshake(P::HandshakeError),
}

/// What the driver of an attempt reports to it.
pub enum Event<P: Platform> {
    /// The scheduler drives the attempt for the first time.
    Driven,
    /// The TCP connection is open.
    Connected,
    /// The TCP connection could not be opened.
    ConnectFailed(P::ConnectError),
    /// The TLS handshake succeeded.
    HandshakeCompleted,
    /// The TLS handshake did not succeed.
    HandshakeFailed(P::HandshakeError),
    /// The caller dropped the attempt.
    Dropped,
}

/// What the driver of an attempt is to do next.
pub enum Action<P: Platform> {
    /// Open a TCP connection to `target` under `scheduler`.
    Connect { target: SocketAddress, scheduler: P::Scheduler },
    /// Start the TLS client handshake over the open connection.
    Handshake { request: HandshakeRequest<P> },
    /// Hand the encrypted stream towards `peer` to the framing layer as it
    /// is, followed by the frames of `backlog` in order, and complete with
    /// the resulting message stream.
    Adapt { peer: SocketAddress, backlog: Vec<Vec<u8>> },
    /// Close whatever connection is open and fail with `error`.
    Fail { error: EstablishError<P> },
    /// Stop silently; close the connection, open or being opened, if
    /// `release_connection` is set.
    Abandon { release_connection: bool },
    /// Do nothing: the event does not apply and changed nothing.
    Ignored,
}

/// What an [`Action`] stands for.
pub ghost enum ActionView<P: Platform> {
    Connect { target: SocketAddress, scheduler: P::Scheduler },
    Handshake { request: HandshakeRequestView<P> },
    Adapt { peer: SocketAddress, backlog: Seq<Seq<u8>> },
    Fail { error: EstablishError<P> },
    Abandon { release_connection: bool },
    Ignored,
}

impl<P: Platform> View for Action<P> {
    type V = ActionView<P>;

    open spec fn view(&self) -> ActionView<P> {
        match *self {
            Action::Connect { target, scheduler } => ActionView::Connect { target, scheduler },
            Action::Handshake { request } => ActionView::Handshake { request: request@ },
            Action::Adapt { peer, backlog } => ActionView::Adapt {
                peer,
                backlog: contents(backlog@),
            },
            Action::Fail { error } => ActionView::Fail { error },
            Action::Abandon { release_connection } => ActionView::Abandon { release_connection },
            Action::Ignored => ActionView::Ignored,
        }
    }
}

impl<P: Platform> ActionView<P> {
    /// Whether the driver closes the TCP connection, open or being opened,
    /// when it performs this action.
    pub open spec fn releases_connection(self) -> bool {
        match self {
            ActionView::Fail { .. } => true,
            ActionView::Abandon { release_connection } => release_connection,
            _ => false,
        }
    }
}

/// What an attempt still holds at each stage of its life.
pub ghost enum StageView<P: Platform> {
    Unstarted { scheduler: P::Scheduler, request: HandshakeRequestView<P> },
    Connecting { request: HandshakeRequestView<P> },
    Handshaking,
    Ready,
    Failed,
}

/// What a [`ConnectionAttempt`] stands for.
pub ghost struct AttemptView<P: Platform> {
    /// The resolver that the attempt connects to.
    pub target: SocketAddress,
    /// How far the attempt has come, with what it has not handed on yet.
    pub stage: StageView<P>,
}

impl<P: Platform> AttemptView<P> {
    /// An attempt of which nothing has been performed: it still holds the
    /// scheduler and the whole of the handshake request.
    pub open spec fn unstarted(
        target: SocketAddress,
        scheduler: P::Scheduler,
        request: HandshakeRequestView<P>,
    ) -> AttemptView<P> {
        AttemptView { target, stage: StageView::Unstarted { scheduler, request } }
    }

    /// How far the attempt has come.
    pub open spec fn phase(self) -> Phase {
        match self.stage {
            StageView::Unstarted { .. } => Phase::Unstarted,
            StageView::Connecting { .. } => Phase::Connecting,
            StageView::Handshaking => Phase::Handshaking,
            StageView::Ready => Phase::Ready,
            StageView::Failed => Phase::Failed,
        }
    }

    /// The same attempt at another stage.
    pub open spec fn at(self, stage: StageView<P>) -> AttemptView<P> {
        AttemptView { stage, ..self }
    }
}

/// The outcome of one event: the attempt and the queue of its send handle
/// afterwards, and what the driver is to do.
pub ghost struct Transition<P: Platform> {
    pub attempt: AttemptView<P>,
    pub handle: Outbox,
    pub action: ActionView<P>,
}

/// What `event` does to `attempt` and to the queue `handle` of its send
/// handle.
///
/// An attempt moves from one phase to the next only on the event that ends
/// the work of its phase. A failure report or a drop ends it in `Failed`
/// and shuts the queue. Every other event is ignored.
pub open spec fn transition<P: Platform>(
    attempt: AttemptView<P>,
    event: Event<P>,
    handle: Outbox,
) -> Transition<P> {
    match (attempt.stage, event) {
        (StageView::Unstarted { scheduler, request }, Event::Driven) => Transition {
            attempt: attempt.at(StageView::Connecting { request }),
            handle,
            action: ActionView::Connect { target: attempt.target, scheduler },
        },
        (StageView::Unstarted { .. }, Event::Dropped) => Transition {
            attempt: attempt.at(StageView::Failed),
            handle: handle.shut(),
            action: ActionView::Abandon { release_connection: false },
        },
        (StageView::Connecting { request }, Event::Connected) => Transition {
            attempt: attempt.at(StageView::Handshaking),
            handle,
            action: ActionView::Handshake { request },
        },
        (StageView::Connecting { .. }, Event::ConnectFailed(cause)) => Transition {
            attempt: attempt.at(StageView::Failed),
            handle: handle.shut(),
            action: ActionView::Fail { error: EstablishError::Connection(cause) },
        },
        (StageView::Connecting { .. }, Event::Dropped) => Transition {
            attempt: attempt.at(StageView::Failed),
            handle: handle.shut(),
            action: ActionView::Abandon { release_connection: true },
        },
        (StageView::Handshaking, Event::HandshakeCompleted) => Transition {
            attempt: attempt.at(StageView::Ready),
            handle: handle.drained(),
            action: ActionView::Adapt { peer: attempt.target, backlog: handle.pending },
        },
        (StageView::Handshaking, Event::HandshakeFailed(cause)) => Transition {
            attempt: attempt.at(StageView::Failed),
            handle: handle.shut(),
            action: ActionView::Fail { error: EstablishError::Handshake(cause) },
        },
        (StageView::Handshaking, Event::Dropped) => Transition {
            attempt: attempt.at(StageView::Failed),
            handle: handle.shut(),
            action: ActionView::Abandon { release_connection: true },
        },
        _ => Transition { attempt, handle, action: ActionView::Ignored },
    }
}

enum Stage<P: Platform> {
    Unstarted { scheduler: P::Scheduler, request: HandshakeRequest<P> },
    Connecting { request: HandshakeRequest<P> },
    Handshaking,
    Ready,
    Failed,
}

/// One attempt to open a TLS-secured stream to a resolver.
///
/// The attempt performs no I/O itself. Its driver reports each [`Event`] to
/// [`ConnectionAttempt::step`] and performs the [`Action`] that comes back.
pub struct ConnectionAttempt<P: Platform> {
    target: SocketAddress,
    stage: Stage<P>,
}

impl<P: Platform> View for ConnectionAttempt<P> {
    type V = AttemptView<P>;

    closed spec fn view(&self) -> AttemptView<P> {
        AttemptView {
            target: self.target,
            stage: match self.stage {
                Stage::Unstarted { scheduler, request } => StageView::Unstarted {
                    scheduler,
                    request: request@,
                },
                Stage::Connecting { request } => StageView::Connecting { request: request@ },
                Stage::Handshaking => StageView::Handshaking,
                Stage::Ready => StageView::Ready,
                Stage::Failed => StageView::Failed,
            },
        }
    }
}

impl<P: Platform> ConnectionAttempt<P> {
    /// An unstarted attempt to reach `target` under `scheduler`, which will
    /// ask for the handshake that `request` describes.
    pub(crate) fn new(
        target: SocketAddress,
        scheduler: P::Scheduler,
        request: HandshakeRequest<P>,
    ) -> (attempt: ConnectionAttempt<P>)
        ensures
            attempt@ == AttemptView::unstarted(target, scheduler, request@),
    {
        ConnectionAttempt { target, stage: Stage::Unstarted { scheduler, request } }
    }

    /// The resolver that the attempt connects to.
    pub fn target(&self) -> (target: SocketAddress)
        ensures
            target == self@.target,
    {
        self.target
    }

    /// How far the attempt has come.
    pub fn phase(&self) -> (phase: Phase)
        ensures
            phase == self@.phase(),
    {
        match self.stage {
            Stage::Unstarted { .. } => Phase::Unstarted,
            Stage::Connecting { .. } => Phase::Connecting,
            Stage::Handshaking => Phase::Handshaking,
            Stage::Ready => Phase::Ready,
            Stage::Failed => Phase::Failed,
        }
    }

    /// Takes `event` into account: returns the attempt as it is afterwards
    /// and what the driver is to do, and drains or closes `handle` where the
    /// event completes or ends the attempt.
    pub fn step(self, event: Event<P>, handle: &mut SendHandle) -> (next: (
        ConnectionAttempt<P>,
        Action<P>,
    ))
        ensures
            next.0@ == transition(self@, event, old(handle)@).attempt,
            next.1@ == transition(self@, event, old(handle)@).action,
            final(handle)@ == transition(self@, event, old(handle)@).handle,
    {
        let ConnectionAttempt { target, stage } = self;
        match stage {
            Stage::Unstarted { scheduler, request } => match event {
                Event::Driven => (
                    ConnectionAttempt { target, stage: Stage::Connecting { request } },
                    Action::Connect { target, scheduler },
                ),
                Event::Dropped => {
                    handle.close();
                    (
                        ConnectionAttempt { target, stage: Stage::Failed },
                        Action::Abandon { release_connection: false },
                    )
                },
                _ => (
                    ConnectionAttempt { target, stage: Stage::Unstarted { scheduler, request } },
                    Action::Ignored,
                ),
            },
            Stage::Connecting { request } => match event {
                Event::Connected => (
                    ConnectionAttempt { target, stage: Stage::Handshaking },
                    Action::Handshake { request },
                ),
                Event::ConnectFailed(cause) => {
                    handle.close();
                    (
                        ConnectionAttempt { target, stage: Stage::Failed },
                        Action::Fail { error: EstablishError::Connection(cause) },
                    )
                },
                Event::Dropped => {
                    handle.close();
                    (
                        ConnectionAttempt { target, stage: Stage::Failed },
                        Action::Abandon { release_connection: true },
                    )
                },
                _ => (
                    ConnectionAttempt { target, stage: Stage::Connecting { request } },
                    Action::Ignored,
                ),
            },
            Stage::Handshaking => match event {
                Event::HandshakeCompleted => {
                    let backlog = handle.drain();
                    (
                        ConnectionAttempt { target, stage: Stage::Ready },
                        Action::Adapt { peer: target, backlog },
                    )
                },
                Event::HandshakeFailed(cause) => {
                    handle.close();
                    (
                        ConnectionAttempt { target, stage: Stage::Failed },
                        Action::Fail { error: EstablishError::Handshake(cause) },
                    )
                },
                Event::Dropped => {
                    handle.close();
                    (
                        ConnectionAttempt { target, stage: Stage::Failed },
                        Action::Abandon { release_connection: true },
                    )
                },
                _ => (ConnectionAttempt { target, stage: Stage::Handshaking }, Action::Ignored),
            },
            Stage::Ready => (ConnectionAttempt { target, stage: Stage::Ready }, Action::Ignored),
            Stage::Failed => (ConnectionAttempt { target, stage: Stage::Failed }, Action::Ignored),
        }
    }
}

} // verus!
