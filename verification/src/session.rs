use vstd::prelude::*;

use crate::attempt::{transition, AttemptView, Event, Phase};
use crate::builder::Configuration;
use crate::endpoint::SocketAddress;
use crate::platform::Platform;
use crate::send_handle::Outbox;

verus! {

/// Something that happens to an attempt or to its send handle.
pub ghost enum Input<P: Platform> {
    /// The driver reports an event to the attempt.
    Report(Event<P>),
    /// The caller sends a frame through the handle.
    Send(Seq<u8>),
}

impl<P: Platform> Input<P> {
    /// The frame that this input sends, if it sends one.
    pub open spec fn frame(self) -> Option<Seq<u8>> {
        match self {
            Input::Report(_) => None,
            Input::Send(frame) => Some(frame),
        }
    }
}

/// The frames that `inputs` send, in order.
pub open spec fn frames_sent<P: Platform>(inputs: Seq<Input<P>>) -> Seq<Seq<u8>> {
    inputs.filter_map(|input: Input<P>| input.frame())
}

/// An attempt together with the queue of the send handle that belongs to
/// it.
pub ghost struct Session<P: Platform> {
    pub attempt: AttemptView<P>,
    pub handle: Outbox,
}

impl<P: Platform> Session<P> {
    /// What building `configuration` gives: an unstarted attempt and an
    /// open, empty queue.
    pub open spec fn established(
        configuration: Configuration<P>,
        name_server: SocketAddress,
        subject_name: Seq<char>,
        loop_handle: P::Scheduler,
    ) -> Session<P> {
        Session {
            attempt: AttemptView::unstarted(
                name_server,
                loop_handle,
                configuration.request(subject_name),
            ),
            handle: Outbox::fresh(name_server),
        }
    }

    /// The phase of the attempt.
    pub open spec fn phase(self) -> Phase {
        self.attempt.phase()
    }

    /// This session after `input`.
    pub open spec fn after(self, input: Input<P>) -> Session<P> {
        match input {
            Input::Report(event) => {
                let outcome = transition(self.attempt, event, self.handle);
                Session { attempt: outcome.attempt, handle: outcome.handle }
            },
            Input::Send(frame) => Session { handle: self.handle.offered(frame), ..self },
        }
    }

    /// This session after each of `inputs`, in order.
    pub open spec fn after_all(self, inputs: Seq<Input<P>>) -> Session<P>
        decreases inputs.len(),
    {
        if inputs.len() == 0 {
            self
        } else {
            self.after_all(inputs.drop_last()).after(inputs.last())
        }
    }
}

} // verus!
