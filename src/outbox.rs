//! The intake of the outbound serializer: producers submit messages, and the
//! one consumer that owns the stream's send-half takes them in order.
use crate::messages::StreamingMessage;
use vstd::prelude::*;

verus! {

/// What the consumer is to do next.
pub enum Next {
    /// Write this message on the send-half.
    Write(StreamingMessage),
    /// Nothing queued yet: wait for a submission.
    Wait,
    /// Closed and drained: stop, so that the stream can close.
    Finished,
}

/// An unbounded first-in first-out queue of outbound messages.
pub struct Outbox {
    pending: Vec<StreamingMessage>,
    closed: bool,
}

impl Outbox {
    /// The messages submitted and not yet taken, oldest first.
    pub closed spec fn queued(&self) -> Seq<StreamingMessage> {
        self.pending@
    }

    pub closed spec fn is_closed(&self) -> bool {
        self.closed
    }

    pub fn new() -> (r: Outbox)
        ensures
            r.queued() == Seq::<StreamingMessage>::empty(),
            !r.is_closed(),
    {
        Outbox { pending: Vec::new(), closed: false }
    }

    /// Queues `m` behind everything queued before it; refused once closed.
    pub fn submit(&mut self, m: StreamingMessage) -> (r: bool)
        ensures
            r == !old(self).is_closed(),
            final(self).is_closed() == old(self).is_closed(),
            r ==> final(self).queued() == old(self).queued().push(m),
            !r ==> final(self).queued() == old(self).queued(),
    {
        if self.closed {
            false
        } else {
            self.pending.push(m);
            true
        }
    }

    /// Accepts no more submissions; what is queued is still handed out.
    pub fn close(&mut self)
        ensures
            final(self).is_closed(),
            final(self).queued() == old(self).queued(),
    {
        self.closed = true;
    }

    /// The oldest queued message, or what the consumer is to do when none is.
    pub fn next(&mut self) -> (r: Next)
        ensures
            final(self).is_closed() == old(self).is_closed(),
            old(self).queued().len() > 0 ==> r == Next::Write(old(self).queued()[0])
                && final(self).queued() == old(self).queued().drop_first(),
            old(self).queued().len() == 0 ==> final(self).queued() == old(self).queued() && (if old(
                self,
            ).is_closed() {
                r is Finished
            } else {
                r is Wait
            }),
    {
        if self.pending.len() > 0 {
            let m = self.pending.remove(0);
            Next::Write(m)
        } else if self.closed {
            Next::Finished
        } else {
            Next::Wait
        }
    }
}

} // verus!
