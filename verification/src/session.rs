//! The connection session: owns one upgraded bidirectional stream and runs
//! the message loop. The loop multiplexes two sources — inbound frames from
//! the client and outbound events from the connection's channel — and drives
//! the state machine `Connecting -> Active -> Closing -> Closed`. Whatever
//! sends the session to `Closing`, its identity is unregistered before the
//! session terminates.

use vstd::prelude::*;
use crate::MAX_FRAME_SIZE;
use crate::channel::EventChannel;
use crate::registry::ConnectionRegistry;

verus! {

/// Lifecycle of one connection session.
#[derive(Debug, PartialEq, Eq, Structural, Clone, Copy)]
pub enum SessionState {
    /// Upgrade finished, registration not yet done.
    Connecting,
    /// Steady state: the message loop is multiplexing its two sources.
    Active,
    /// A terminal condition was seen; the identity must now be unregistered.
    Closing,
    /// The loop has exited and the identity is unregistered.
    Closed,
}

/// One occurrence the message loop can observe, from either of its sources.
pub enum SessionEvent {
    /// A text or binary frame of `len` bytes arrived from the client.
    InboundFrame { len: usize },
    /// The client sent a close frame.
    InboundClose,
    /// Reading from the socket failed.
    InboundError,
    /// The inbound stream ended.
    StreamEnded,
    /// The connection's channel produced a payload to forward.
    OutboundMessage { payload: String },
    /// Writing a forwarded frame to the socket failed.
    OutboundWriteFailed,
    /// The connection's channel reports closed: no more payloads will come.
    OutboundClosed,
    /// The subscriber lagged and `missed` payloads were dropped; not fatal.
    OutboundLagged { missed: u64 },
}

/// What the loop does in response to one event.
pub enum SessionAction {
    /// Nothing to do; wait for the next event.
    Continue,
    /// Write this frame to the client socket.
    Forward { frame: String },
    /// Leave the loop and unregister.
    BeginClose,
}

/// Whether an event drives the session to `Closing`: client close, read or
/// write failure, end of stream, channel closure, or an oversized frame.
/// A lagged channel and an inbound frame within the size cap are not fatal.
pub open spec fn event_is_terminal(ev: SessionEvent) -> bool {
    match ev {
        SessionEvent::InboundFrame { len } => len > MAX_FRAME_SIZE,
        SessionEvent::InboundClose => true,
        SessionEvent::InboundError => true,
        SessionEvent::StreamEnded => true,
        SessionEvent::OutboundMessage { .. } => false,
        SessionEvent::OutboundWriteFailed => true,
        SessionEvent::OutboundClosed => true,
        SessionEvent::OutboundLagged { .. } => false,
    }
}

/// The action the loop takes on one event while `Active`.
pub open spec fn spec_step_action(ev: SessionEvent) -> SessionAction {
    if event_is_terminal(ev) {
        SessionAction::BeginClose
    } else {
        match ev {
            SessionEvent::OutboundMessage { payload } => SessionAction::Forward { frame: payload },
            _ => SessionAction::Continue,
        }
    }
}

/// The payloads forwarded to the client over a run of events, in order.
pub open spec fn forwarded(s: Seq<SessionEvent>) -> Seq<Seq<char>>
    decreases s.len(),
{
    if s.len() == 0 {
        Seq::empty()
    } else {
        forwarded(s.drop_last()) + match s.last() {
            SessionEvent::OutboundMessage { payload } => seq![payload@],
            _ => Seq::empty(),
        }
    }
}

/// One client connection's session.
pub struct Session {
    /// The connection identity this session registered under.
    pub identity: String,
    /// Where in its lifecycle the session stands.
    pub state: SessionState,
}

impl Session {
    /// A session for a freshly upgraded connection, not yet registered.
    pub fn new(identity: String) -> (r: Session)
        ensures
            r.identity@ == identity@,
            r.state == SessionState::Connecting,
    {
        Session { identity, state: SessionState::Connecting }
    }

    /// Registers a fresh empty channel under this session's identity and
    /// enters the steady state. Insertion happens before the loop starts.
    pub fn register(&mut self, registry: &mut ConnectionRegistry)
        requires
            old(self).state == SessionState::Connecting,
            old(registry).wf(),
        ensures
            final(self).state == SessionState::Active,
            final(self).identity@ == old(self).identity@,
            final(registry).wf(),
            final(registry)@ == old(registry)@.insert(
                old(self).identity@,
                crate::channel::ChannelView { queue: Seq::empty(), closed: false },
            ),
    {
        let chan = EventChannel::new();
        registry.register(self.identity.clone(), chan);
        self.state = SessionState::Active;
    }

    /// Handles one event of the message loop: forwards an outbound payload,
    /// ignores inert input, and enters `Closing` on any terminal condition.
    pub fn handle_event(&mut self, ev: SessionEvent) -> (r: SessionAction)
        requires
            old(self).state == SessionState::Active,
        ensures
            final(self).identity@ == old(self).identity@,
            final(self).state == (if event_is_terminal(ev) {
                SessionState::Closing
            } else {
                SessionState::Active
            }),
            r == spec_step_action(ev),
    {
        match ev {
            SessionEvent::InboundFrame { len } => {
                if len > MAX_FRAME_SIZE {
                    self.state = SessionState::Closing;
                    SessionAction::BeginClose
                } else {
                    SessionAction::Continue
                }
            },
            SessionEvent::InboundClose => {
                self.state = SessionState::Closing;
                SessionAction::BeginClose
            },
            SessionEvent::InboundError => {
                self.state = SessionState::Closing;
                SessionAction::BeginClose
            },
            SessionEvent::StreamEnded => {
                self.state = SessionState::Closing;
                SessionAction::BeginClose
            },
            SessionEvent::OutboundMessage { payload } => {
                SessionAction::Forward { frame: payload }
            },
            SessionEvent::OutboundWriteFailed => {
                self.state = SessionState::Closing;
                SessionAction::BeginClose
            },
            SessionEvent::OutboundClosed => {
                self.state = SessionState::Closing;
                SessionAction::BeginClose
            },
            SessionEvent::OutboundLagged { .. } => {
                SessionAction::Continue
            },
        }
    }

    /// Leaves `Closing`: unregisters this session's identity — idempotently,
    /// and unconditionally on every exit path — then terminates. After this,
    /// the identity is absent from the registry.
    pub fn finish_close(&mut self, registry: &mut ConnectionRegistry)
        requires
            old(self).state == SessionState::Closing,
            old(registry).wf(),
        ensures
            final(self).state == SessionState::Closed,
            final(self).identity@ == old(self).identity@,
            final(registry).wf(),
            final(registry)@ == old(registry)@.remove(old(self).identity@),
            !final(registry)@.dom().contains(old(self).identity@),
    {
        registry.unregister(&self.identity);
        self.state = SessionState::Closed;
    }

    /// Replays the message loop over a given run of events: handles each in
    /// order, collecting the frames forwarded to the client, until the first
    /// terminal event — which closes the session and unregisters it — or the
    /// end of the run. Returns the forwarded frames and how many events were
    /// handled before the terminal one.
    pub fn run(&mut self, registry: &mut ConnectionRegistry, events: Vec<SessionEvent>) -> (res: (
        Vec<String>,
        usize,
    ))
        requires
            old(self).state == SessionState::Active,
            old(registry).wf(),
        ensures
            final(self).identity@ == old(self).identity@,
            final(registry).wf(),
            res.1 <= events@.len(),
            forall|j: int| 0 <= j < res.1 ==> !event_is_terminal(#[trigger] events@[j]),
            res.1 < events@.len() ==> event_is_terminal(events@[res.1 as int])
                && final(self).state == SessionState::Closed
                && final(registry)@ == old(registry)@.remove(old(self).identity@)
                && !final(registry)@.dom().contains(old(self).identity@),
            res.1 == events@.len() ==> final(self).state == SessionState::Active
                && final(registry)@ == old(registry)@,
            res.0@.map_values(|f: String| f@) == forwarded(events@.take(res.1 as int)),
    {
        let mut frames: Vec<String> = Vec::new();
        let mut i: usize = 0;
        let n = events.len();
        let ghost all = events@;
        let mut rest = events;
        proof {
            assert(frames@.map_values(|f: String| f@) =~= forwarded(all.take(0)));
            assert(rest@ =~= all.skip(0));
        }
        while i < n
            invariant
                i <= n,
                n == all.len(),
                all == events@,
                rest@ == all.skip(i as int),
                self.state == SessionState::Active,
                self.identity@ == old(self).identity@,
                registry.wf(),
                registry@ == old(registry)@,
                forall|j: int| 0 <= j < i ==> !event_is_terminal(#[trigger] all[j]),
                frames@.map_values(|f: String| f@) == forwarded(all.take(i as int)),
            decreases n - i,
        {
            let ev = rest.remove(0);
            proof {
                assert(all.skip(i as int)[0] == all[i as int]);
                assert(rest@ =~= all.skip(i as int + 1));
            }
            let ghost gev = all[i as int];
            let act = self.handle_event(ev);
            match act {
                SessionAction::Continue => {
                    proof {
                        assert(all.take(i as int + 1).drop_last() =~= all.take(i as int));
                        assert(all.take(i as int + 1).last() == gev);
                        assert(frames@.map_values(|f: String| f@) =~= forwarded(
                            all.take(i as int + 1),
                        ));
                    }
                },
                SessionAction::Forward { frame } => {
                    frames.push(frame);
                    proof {
                        assert(all.take(i as int + 1).drop_last() =~= all.take(i as int));
                        assert(all.take(i as int + 1).last() == gev);
                        assert(frames@.map_values(|f: String| f@) =~= forwarded(
                            all.take(i as int + 1),
                        ));
                    }
                },
                SessionAction::BeginClose => {
                    self.finish_close(registry);
                    return (frames, i);
                },
            }
            i += 1;
        }
        (frames, i)
    }
}

} // verus!
