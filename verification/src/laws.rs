use vstd::prelude::*;

use crate::attempt::{
    transition, ActionView, AttemptView, EstablishError, Event, Phase, StageView, Transition,
};
use crate::builder::{BuilderCall, Configuration};
use crate::endpoint::SocketAddress;
use crate::platform::Platform;
use crate::send_handle::Outbox;
use crate::session::{frames_sent, Input, Session};

verus! {

/// The trust anchors of a configuration are those that were added to it,
/// each once and in the order of the calls, whatever else was called in
/// between.
pub proof fn law_anchors_kept_in_insertion_order<P: Platform>(
    base: Configuration<P>,
    calls: Seq<BuilderCall<P>>,
)
    ensures
        base.after_all(calls).anchors == base.anchors + calls.filter_map(
            |call: BuilderCall<P>| call.anchor(),
        ),
    decreases calls.len(),
{
    if calls.len() > 0 {
        law_anchors_kept_in_insertion_order(base, calls.drop_last());
    }
}

/// A configuration on which no identity was ever set has none, and one on
/// which an identity was set has the identity of the last such call.
pub proof fn law_last_identity_wins<P: Platform>(calls: Seq<BuilderCall<P>>)
    ensures
        (forall|i: int| 0 <= i < calls.len() ==> !(#[trigger] calls[i] is Identity))
            ==> Configuration::<P>::empty().after_all(calls).identity is None,
        forall|k: int|
            0 <= k < calls.len() && #[trigger] calls[k] is Identity && (forall|j: int|
                k < j < calls.len() ==> !(#[trigger] calls[j] is Identity))
                ==> Configuration::<P>::empty().after_all(calls).identity == Some(
                calls[k]->Identity_0,
            ),
    decreases calls.len(),
{
    if calls.len() > 0 {
        let before = calls.drop_last();
        law_last_identity_wins(before);
        assert forall|k: int|
            0 <= k < calls.len() && #[trigger] calls[k] is Identity && (forall|j: int|
                k < j < calls.len() ==> !(#[trigger] calls[j] is Identity))
            implies Configuration::<P>::empty().after_all(calls).identity == Some(
            calls[k]->Identity_0,
        ) by {
            if k < calls.len() - 1 {
                assert(before[k] is Identity);
            }
        }
    }
}

/// The handshake that follows a build is asked for when the connection is
/// reported open, and it is given the configuration as it was built: the
/// expected peer name, every trust anchor in order and the identity.
pub proof fn law_handshake_presents_configuration<P: Platform>(
    configuration: Configuration<P>,
    name_server: SocketAddress,
    subject_name: Seq<char>,
    loop_handle: P::Scheduler,
)
    ensures
        ({
            let built = Session::established(
                configuration,
                name_server,
                subject_name,
                loop_handle,
            );
            let driven = transition(built.attempt, Event::Driven, built.handle);
            let connected = transition(driven.attempt, Event::Connected, driven.handle);
            &&& driven.action == ActionView::<P>::Connect {
                target: name_server,
                scheduler: loop_handle,
            }
            &&& connected.action == ActionView::<P>::Handshake {
                request: configuration.request(subject_name),
            }
        }),
{
}

/// Each piece of outside work is asked for by exactly one event in exactly
/// one phase: the connection when an unstarted attempt is first driven, the
/// handshake when the connection is reported open, and the stream when the
/// handshake is reported done.
pub proof fn law_work_is_asked_for_in_order<P: Platform>(
    attempt: AttemptView<P>,
    event: Event<P>,
    handle: Outbox,
)
    ensures
        transition(attempt, event, handle).action is Connect <==> attempt.phase()
            == Phase::Unstarted && event is Driven,
        transition(attempt, event, handle).action is Handshake <==> attempt.phase()
            == Phase::Connecting && event is Connected,
        transition(attempt, event, handle).action is Adapt <==> attempt.phase()
            == Phase::Handshaking && event is HandshakeCompleted,
{
}

/// An event leaves an attempt in its phase, moves it to the next phase, or
/// ends it in failure. No phase is skipped, and an attempt that is over
/// stays as it is.
pub proof fn law_no_phase_is_skipped<P: Platform>(
    attempt: AttemptView<P>,
    event: Event<P>,
    handle: Outbox,
)
    ensures
        ({
            let before = attempt.phase();
            let after = transition(attempt, event, handle).attempt.phase();
            &&& after == before || after.ordinal() == before.ordinal() + 1 || after
                == Phase::Failed
            &&& before.is_final() ==> transition(attempt, event, handle).attempt == attempt
            &&& before.is_final() ==> transition(attempt, event, handle).handle == handle
            &&& before.is_final() ==> transition(attempt, event, handle).action is Ignored
        }),
{
}

/// The target of an attempt and the destination of its send handle are
/// fixed when they are built: nothing that happens later changes them.
pub proof fn law_target_is_fixed<P: Platform>(session: Session<P>, inputs: Seq<Input<P>>)
    ensures
        session.after_all(inputs).attempt.target == session.attempt.target,
        session.after_all(inputs).handle.destination == session.handle.destination,
    decreases inputs.len(),
{
    if inputs.len() > 0 {
        law_target_is_fixed(session, inputs.drop_last());
    }
}

/// Whatever happens to a session, its attempt never returns to an earlier
/// phase.
pub proof fn law_phases_never_go_back<P: Platform>(session: Session<P>, inputs: Seq<Input<P>>)
    ensures
        session.phase().ordinal() <= session.after_all(inputs).phase().ordinal(),
    decreases inputs.len(),
{
    if inputs.len() > 0 {
        law_phases_never_go_back(session, inputs.drop_last());
    }
}

/// No phase is visited twice: once an attempt has left a phase, nothing
/// that happens later brings it back.
pub proof fn law_no_phase_is_revisited<P: Platform>(
    session: Session<P>,
    earlier: Seq<Input<P>>,
    later: Seq<Input<P>>,
)
    requires
        session.after_all(earlier).phase() != session.phase(),
    ensures
        session.after_all(earlier).after_all(later).phase() != session.phase(),
{
    law_phases_never_go_back(session, earlier);
    law_phases_never_go_back(session.after_all(earlier), later);
}

/// Nothing is asked for twice. Once the connection was asked for, it is
/// never asked for again, and likewise the handshake; and once the attempt
/// has produced its stream, has failed or was abandoned, every later event
/// is ignored.
pub proof fn law_nothing_is_asked_for_twice<P: Platform>(
    session: Session<P>,
    first: Event<P>,
    between: Seq<Input<P>>,
    second: Event<P>,
)
    ensures
        ({
            let asked = transition(session.attempt, first, session.handle).action;
            let later = session.after(Input::Report(first)).after_all(between);
            let again = transition(later.attempt, second, later.handle).action;
            &&& asked is Connect ==> !(again is Connect)
            &&& asked is Handshake ==> !(again is Handshake)
            &&& asked is Adapt || asked is Fail || asked is Abandon ==> again is Ignored
        }),
{
    law_phases_never_go_back(session.after(Input::Report(first)), between);
}

proof fn lemma_history<P: Platform>(session: Session<P>, inputs: Seq<Input<P>>) -> (at: (
    int,
    int,
    int,
))
    requires
        session.phase() == Phase::Unstarted,
    ensures
        ({
            let phase = session.after_all(inputs).phase();
            &&& phase != Phase::Unstarted && phase != Phase::Failed ==> 0 <= at.0 < inputs.len()
                && inputs[at.0] == Input::<P>::Report(Event::Driven)
            &&& phase == Phase::Handshaking || phase == Phase::Ready ==> at.0 < at.1
                < inputs.len() && inputs[at.1] == Input::<P>::Report(Event::Connected)
            &&& phase == Phase::Ready ==> at.1 < at.2 < inputs.len() && inputs[at.2]
                == Input::<P>::Report(Event::HandshakeCompleted)
        }),
    decreases inputs.len(),
{
    if inputs.len() == 0 {
        (0, 0, 0)
    } else {
        let last = inputs.len() - 1;
        let before = lemma_history(session, inputs.drop_last());
        let was = session.after_all(inputs.drop_last()).phase();
        let is = session.after_all(inputs).phase();
        if is == was {
            before
        } else if is == Phase::Connecting {
            (last, 0, 0)
        } else if is == Phase::Handshaking {
            (before.0, last, 0)
        } else {
            (before.0, before.1, last)
        }
    }
}

/// An attempt is ready only after it was driven, then the connection was
/// reported open, then the handshake was reported done, in this order: no
/// stream is produced before both have completed, and no handshake is asked
/// for before the connection is open.
pub proof fn law_ready_follows_connect_then_handshake<P: Platform>(
    session: Session<P>,
    inputs: Seq<Input<P>>,
)
    requires
        session.phase() == Phase::Unstarted,
        session.after_all(inputs).phase() == Phase::Ready,
    ensures
        exists|i: int, j: int, k: int|
            #![trigger inputs[i], inputs[j], inputs[k]]
            0 <= i < j < k < inputs.len() && inputs[i] == Input::<P>::Report(Event::Driven)
                && inputs[j] == Input::<P>::Report(Event::Connected) && inputs[k]
                == Input::<P>::Report(Event::HandshakeCompleted),
{
    let at = lemma_history(session, inputs);
    assert(0 <= at.0 < at.1 < at.2 < inputs.len() && inputs[at.0] == Input::<P>::Report(
        Event::Driven,
    ) && inputs[at.1] == Input::<P>::Report(Event::Connected) && inputs[at.2]
        == Input::<P>::Report(Event::HandshakeCompleted));
}

/// A reported failure ends the attempt at once and for good: the attempt
/// fails with the primitive's own error, its send handle is shut, and
/// nothing that happens later yields a stream or reopens the handle.
pub proof fn law_failure_is_final<P: Platform>(
    session: Session<P>,
    inputs: Seq<Input<P>>,
    event: Event<P>,
)
    requires
        session.phase() == Phase::Failed,
        session.handle.closed,
    ensures
        session.after_all(inputs).attempt == session.attempt,
        session.after_all(inputs).handle == session.handle,
        !session.after_all(inputs).handle.accepts(),
        transition(
            session.after_all(inputs).attempt,
            event,
            session.after_all(inputs).handle,
        ).action is Ignored,
    decreases inputs.len(),
{
    if inputs.len() > 0 {
        law_failure_is_final(session, inputs.drop_last(), event);
    }
}

/// A failure of the connection or of the handshake fails the attempt with
/// the error as the primitive reported it, shuts the handle and discards
/// what it held.
pub proof fn law_failure_reports_the_cause<P: Platform>(
    attempt: AttemptView<P>,
    handle: Outbox,
    connect_error: P::ConnectError,
    handshake_error: P::HandshakeError,
)
    ensures
        attempt.phase() == Phase::Connecting ==> transition(
            attempt,
            Event::ConnectFailed(connect_error),
            handle,
        ) == (Transition {
            attempt: attempt.at(StageView::Failed),
            handle: handle.shut(),
            action: ActionView::Fail { error: EstablishError::Connection(connect_error) },
        }),
        attempt.phase() == Phase::Handshaking ==> transition(
            attempt,
            Event::HandshakeFailed(handshake_error),
            handle,
        ) == (Transition {
            attempt: attempt.at(StageView::Failed),
            handle: handle.shut(),
            action: ActionView::Fail { error: EstablishError::Handshake(handshake_error) },
        }),
{
}

/// From the build until the attempt is over, the handle is open and holds
/// every frame sent so far, in the order of sending: no send is refused and
/// none waits. If the attempt then becomes ready, the stream is handed
/// exactly these frames; if it fails or is dropped, the handle is shut and
/// empty.
pub proof fn law_frames_wait_until_ready<P: Platform>(
    configuration: Configuration<P>,
    name_server: SocketAddress,
    subject_name: Seq<char>,
    loop_handle: P::Scheduler,
    inputs: Seq<Input<P>>,
)
    ensures
        ({
            let built = Session::established(
                configuration,
                name_server,
                subject_name,
                loop_handle,
            );
            let now = built.after_all(inputs);
            &&& now.attempt.target == name_server
            &&& !now.phase().is_final() ==> now.handle == Outbox {
                destination: name_server,
                pending: frames_sent(inputs),
                closed: false,
            }
            &&& now.phase() == Phase::Handshaking ==> transition(
                now.attempt,
                Event::HandshakeCompleted,
                now.handle,
            ).action == ActionView::<P>::Adapt { peer: name_server, backlog: frames_sent(inputs) }
            &&& now.phase() == Phase::Failed ==> now.handle == Outbox::fresh(name_server).shut()
        }),
    decreases inputs.len(),
{
    if inputs.len() > 0 {
        law_frames_wait_until_ready(
            configuration,
            name_server,
            subject_name,
            loop_handle,
            inputs.drop_last(),
        );
        match inputs.last() {
            Input::Report(_) => {},
            Input::Send(sent) => {
                assert(frames_sent(inputs) =~= frames_sent(inputs.drop_last()).push(sent));
            },
        }
    }
}

/// Dropping an attempt whose connection is open or being opened ends it,
/// has the connection closed and shuts the send handle.
pub proof fn law_drop_releases_connection<P: Platform>(attempt: AttemptView<P>, handle: Outbox)
    requires
        attempt.phase() == Phase::Connecting || attempt.phase() == Phase::Handshaking,
    ensures
        transition(attempt, Event::Dropped, handle) == (Transition {
            attempt: attempt.at(StageView::Failed),
            handle: handle.shut(),
            action: ActionView::<P>::Abandon { release_connection: true },
        }),
{
}

/// No connection is leaked: whenever an attempt whose connection is open or
/// being opened ends in failure, the driver is told to close it.
pub proof fn law_no_connection_is_leaked<P: Platform>(
    attempt: AttemptView<P>,
    event: Event<P>,
    handle: Outbox,
)
    requires
        attempt.phase() == Phase::Connecting || attempt.phase() == Phase::Handshaking,
        transition(attempt, event, handle).attempt.phase() == Phase::Failed,
    ensures
        transition(attempt, event, handle).action.releases_connection(),
{
}

} // verus!
