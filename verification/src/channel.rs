//! The event channel: a bounded FIFO of string payloads bound to one
//! connection. The registry holds the send side; the connection's session
//! drains the receive side. Sends never block: when the buffer already holds
//! `CHANNEL_CAPACITY` payloads, a further send is dropped for this
//! subscriber, and a send on a closed channel does nothing.

use vstd::prelude::*;
use crate::CHANNEL_CAPACITY;

verus! {

/// The mathematical state of a channel: the payloads buffered oldest-first,
/// and whether the channel has been closed.
#[verifier::ext_equal]
pub ghost struct ChannelView {
    pub queue: Seq<Seq<char>>,
    pub closed: bool,
}

/// What became of one non-blocking send.
#[derive(Debug, PartialEq, Eq, Clone, Copy)]
pub enum SendOutcome {
    /// The payload was appended to the buffer.
    Delivered,
    /// The buffer already held `CHANNEL_CAPACITY` payloads; the payload was
    /// dropped for this subscriber.
    Full,
    /// The channel was closed; the payload was dropped.
    Closed,
}

/// What a receive attempt produced.
#[derive(Debug, PartialEq, Eq)]
pub enum RecvOutcome {
    /// The oldest buffered payload.
    Message(String),
    /// Nothing buffered, channel still open.
    Empty,
    /// Nothing buffered and the channel is closed: no more will ever come.
    Closed,
}

/// How one send transforms a channel: append when open and not full,
/// otherwise leave the channel exactly as it was.
pub open spec fn spec_send(cv: ChannelView, p: Seq<char>) -> ChannelView {
    if cv.closed || cv.queue.len() >= CHANNEL_CAPACITY {
        cv
    } else {
        ChannelView { queue: cv.queue.push(p), closed: cv.closed }
    }
}

/// A bounded FIFO of payloads for one connection.
pub struct EventChannel {
    queue: Vec<String>,
    closed: bool,
}

impl View for EventChannel {
    type V = ChannelView;

    closed spec fn view(&self) -> ChannelView {
        ChannelView { queue: self.queue@.map_values(|s: String| s@), closed: self.closed }
    }
}

impl EventChannel {
    /// A fresh, open, empty channel.
    pub fn new() -> (r: EventChannel)
        ensures
            r@ == (ChannelView { queue: Seq::empty(), closed: false }),
    {
        let r = EventChannel { queue: Vec::new(), closed: false };
        proof {
            assert(r@.queue =~= Seq::empty());
        }
        r
    }

    /// How many payloads are buffered.
    pub fn len(&self) -> (r: usize)
        ensures
            r == self@.queue.len(),
    {
        self.queue.len()
    }

    /// Whether the channel has been closed.
    pub fn is_closed(&self) -> (r: bool)
        ensures
            r == self@.closed,
    {
        self.closed
    }

    /// Non-blocking send: buffers the payload unless the channel is closed
    /// or already holds `CHANNEL_CAPACITY` payloads, in which case the
    /// payload is dropped and the channel is left unchanged.
    pub fn send(&mut self, msg: String) -> (r: SendOutcome)
        ensures
            final(self)@ == spec_send(old(self)@, msg@),
            r == SendOutcome::Closed <==> old(self)@.closed,
            r == SendOutcome::Full <==> !old(self)@.closed && old(self)@.queue.len()
                >= CHANNEL_CAPACITY,
            r == SendOutcome::Delivered <==> !old(self)@.closed && old(self)@.queue.len()
                < CHANNEL_CAPACITY,
    {
        if self.closed {
            SendOutcome::Closed
        } else if self.queue.len() >= CHANNEL_CAPACITY {
            SendOutcome::Full
        } else {
            self.queue.push(msg);
            proof {
                assert(self@.queue =~= old(self)@.queue.push(msg@));
            }
            SendOutcome::Delivered
        }
    }

    /// Receive: takes the oldest buffered payload; reports `Empty` on an
    /// open empty channel and `Closed` once the channel is closed and
    /// drained.
    pub fn recv(&mut self) -> (r: RecvOutcome)
        ensures
            old(self)@.queue.len() > 0 ==> (r matches RecvOutcome::Message(m)
                && m@ == old(self)@.queue[0]
                && final(self)@ == (ChannelView {
                    queue: old(self)@.queue.drop_first(),
                    closed: old(self)@.closed,
                })),
            old(self)@.queue.len() == 0 ==> final(self)@ == old(self)@
                && r == (if old(self)@.closed { RecvOutcome::Closed } else { RecvOutcome::Empty }),
    {
        if self.queue.len() > 0 {
            let m = self.queue.remove(0);
            proof {
                assert(self@.queue =~= old(self)@.queue.drop_first());
            }
            RecvOutcome::Message(m)
        } else if self.closed {
            RecvOutcome::Closed
        } else {
            RecvOutcome::Empty
        }
    }

    /// Closes the channel: buffered payloads stay readable, further sends
    /// are dropped.
    pub fn close(&mut self)
        ensures
            final(self)@ == (ChannelView { queue: old(self)@.queue, closed: true }),
    {
        self.closed = true;
    }
}

} // verus!
