use vstd::prelude::*;

use crate::endpoint::SocketAddress;

verus! {

/// Why a frame was not accepted by a [`SendHandle`].
#[derive(Clone, Copy, Debug, PartialEq, Eq, Structural)]
pub enum SendError {
    /// The connection attempt failed or was abandoned, or the stream is gone.
    Closed,
}

/// The contents of each frame of `frames`, in the same order.
pub open spec fn contents(frames: Seq<Vec<u8>>) -> Seq<Seq<u8>> {
    frames.map_values(|frame: Vec<u8>| frame@)
}

/// What a [`SendHandle`] stands for: the queue between the caller and the
/// stream.
pub ghost struct Outbox {
    /// The peer that every queued frame is addressed to.
    pub destination: SocketAddress,
    /// The frames accepted and not yet taken by the stream, oldest first.
    pub pending: Seq<Seq<u8>>,
    /// Whether the queue has stopped accepting frames.
    pub closed: bool,
}

impl Outbox {
    /// The empty, open queue towards `destination`.
    pub open spec fn fresh(destination: SocketAddress) -> Outbox {
        Outbox { destination, pending: Seq::empty(), closed: false }
    }

    /// Whether a frame offered now is accepted.
    pub open spec fn accepts(self) -> bool {
        !self.closed
    }

    /// The queue after `frame` was offered: appended if the queue is open,
    /// dropped otherwise.
    pub open spec fn offered(self, frame: Seq<u8>) -> Outbox {
        if self.closed {
            self
        } else {
            Outbox { pending: self.pending.push(frame), ..self }
        }
    }

    /// The queue after the stream took everything that was pending.
    pub open spec fn drained(self) -> Outbox {
        Outbox { pending: Seq::empty(), ..self }
    }

    /// The queue after its consumer went away: what was pending is
    /// discarded and nothing is accepted any more.
    pub open spec fn shut(self) -> Outbox {
        Outbox { pending: Seq::empty(), closed: true, ..self }
    }
}

/// The caller's end of the queue of outbound frames.
///
/// Frames can be queued from the moment the handle exists. They wait in
/// order until the stream is ready and takes them; if the stream never
/// becomes ready they are discarded, and later frames are refused.
pub struct SendHandle {
    destination: SocketAddress,
    pending: Vec<Vec<u8>>,
    closed: bool,
}

impl View for SendHandle {
    type V = Outbox;

    closed spec fn view(&self) -> Outbox {
        Outbox {
            destination: self.destination,
            pending: contents(self.pending@),
            closed: self.closed,
        }
    }
}

impl SendHandle {
    /// An open handle with nothing queued, for frames addressed to
    /// `destination`.
    pub fn new(destination: SocketAddress) -> (handle: SendHandle)
        ensures
            handle@ == Outbox::fresh(destination),
    {
        let handle = SendHandle { destination, pending: Vec::new(), closed: false };
        assert(handle@.pending =~= Seq::<Seq<u8>>::empty());
        handle
    }

    /// The peer that every frame sent through this handle is addressed to.
    pub fn destination(&self) -> (destination: SocketAddress)
        ensures
            destination == self@.destination,
    {
        self.destination
    }

    /// Whether the handle has stopped accepting frames.
    pub fn is_closed(&self) -> (closed: bool)
        ensures
            closed == self@.closed,
    {
        self.closed
    }

    /// Queues `buffer` behind the frames already waiting. Never waits for
    /// the connection: the frame is queued at once or refused at once, the
    /// latter exactly when the handle is closed.
    ///
    /// The stream has one peer and every frame goes to it, so the
    /// destination given with a frame is not consulted.
    pub fn send(&mut self, buffer: Vec<u8>, _destination: SocketAddress) -> (sent: Result<
        (),
        SendError,
    >)
        ensures
            final(self)@ == old(self)@.offered(buffer@),
            old(self)@.accepts() ==> sent == Ok::<(), SendError>(()),
            !old(self)@.accepts() ==> sent == Err::<(), SendError>(SendError::Closed),
    {
        if self.closed {
            Err(SendError::Closed)
        } else {
            self.pending.push(buffer);
            assert(contents(self.pending@) =~= contents(old(self).pending@).push(buffer@));
            Ok(())
        }
    }

    /// Takes every waiting frame, oldest first, and leaves the queue empty.
    pub fn drain(&mut self) -> (frames: Vec<Vec<u8>>)
        ensures
            contents(frames@) == old(self)@.pending,
            final(self)@ == old(self)@.drained(),
    {
        let mut frames: Vec<Vec<u8>> = Vec::new();
        core::mem::swap(&mut self.pending, &mut frames);
        assert(contents(self.pending@) =~= Seq::<Seq<u8>>::empty());
        frames
    }

    /// Closes the handle: discards what is waiting and refuses every later
    /// frame.
    pub fn close(&mut self)
        ensures
            final(self)@ == old(self)@.shut(),
    {
        self.pending = Vec::new();
        self.closed = true;
        assert(contents(self.pending@) =~= Seq::<Seq<u8>>::empty());
    }
}

} // verus!
