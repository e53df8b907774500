//! The decisions of one connection session: what its inbound flow does with
//! each frame of the client, what its outbound flow does with each event of
//! the local broadcast, and how the session closes when either flow ends.
use vstd::prelude::*;
use crate::json::parsed_object;
use crate::ledger::SeenLedger;
use crate::mint::is_hyphenated_id;
use crate::relay::{client_payload, handle_client_text};

verus! {

/// What reading from the client gave.
pub enum ClientFrame {
    /// A text frame.
    Text(String),
    /// A frame of another kind (binary, ping, pong).
    Other,
    /// The client closed the connection, or the read failed.
    Closed,
}

/// What the inbound flow does next.
pub enum InboundStep {
    /// Publish this payload to the topic, then broadcast it locally.
    Relay(String),
    /// Drop the frame and read the next one.
    Skip,
    /// End the inbound flow.
    Stop,
}

/// What the local broadcast gave.
pub enum HubEvent {
    /// A payload to deliver.
    Payload(String),
    /// Payloads were missed because this subscriber fell behind.
    Lagged,
    /// The broadcast has closed.
    Closed,
}

/// What the outbound flow does next.
pub enum OutboundStep {
    /// Write this payload to the client as a text frame.
    Deliver(String),
    /// Wait for the next event.
    Skip,
    /// End the outbound flow.
    Stop,
}

/// Takes one frame read from the client. A text that is a JSON object is
/// given an identifier and a timestamp, its identifier is marked as seen, and
/// it is relayed; any other text, and a frame of another kind, is dropped
/// with nothing marked; a closed connection ends the flow.
pub fn on_client_frame(ledger: &mut SeenLedger, frame: ClientFrame) -> (step: InboundStep)
    requires
        old(ledger).wf(),
    ensures
        final(ledger).wf(),
        match frame {
            ClientFrame::Text(t) => match step {
                InboundStep::Relay(p) => exists|id: Seq<char>, ts: Seq<char>|
                    is_hyphenated_id(id) && client_payload(t@, id, ts) == Some(p@)
                        && final(ledger)@ == old(ledger)@.insert(id),
                InboundStep::Skip => final(ledger)@ == old(ledger)@,
                InboundStep::Stop => false,
            },
            ClientFrame::Other => step is Skip && final(ledger)@ == old(ledger)@,
            ClientFrame::Closed => step is Stop && final(ledger)@ == old(ledger)@,
        },
        match frame {
            ClientFrame::Text(t) => (parsed_object(t@) is None ==> step is Skip)
                && (parsed_object(t@) is Some ==> step is Relay),
            _ => true,
        },
{
    match frame {
        ClientFrame::Text(t) => match handle_client_text(ledger, t.as_str()) {
            Some(p) => InboundStep::Relay(p),
            None => InboundStep::Skip,
        },
        ClientFrame::Other => InboundStep::Skip,
        ClientFrame::Closed => InboundStep::Stop,
    }
}

/// Takes one event of the local broadcast: a payload is delivered, a lag is
/// passed over (the missed payloads are gone), and a closed broadcast ends
/// the flow.
pub fn on_hub_event(event: HubEvent) -> (step: OutboundStep)
    ensures
        match event {
            HubEvent::Payload(p) => step == OutboundStep::Deliver(p),
            HubEvent::Lagged => step is Skip,
            HubEvent::Closed => step is Stop,
        },
{
    match event {
        HubEvent::Payload(p) => OutboundStep::Deliver(p),
        HubEvent::Lagged => OutboundStep::Skip,
        HubEvent::Closed => OutboundStep::Stop,
    }
}

/// Whether the outbound flow goes on after writing to the client: it ends on
/// the first failed write.
pub fn continue_after_write(written: bool) -> (go_on: bool)
    ensures
        go_on == written,
{
    written
}

/// When a relayed payload is broadcast to the local connections.
#[derive(Clone, Copy, Debug, PartialEq, Eq, Structural)]
pub enum EchoPolicy {
    /// Whatever came of publishing it: the local view does not wait on the
    /// topic.
    Always,
    /// Only once the topic has taken it.
    OnlyIfPublished,
}

/// Whether a relayed payload is broadcast, given whether publishing it
/// succeeded.
pub fn broadcast_after_publish(policy: EchoPolicy, published: bool) -> (broadcast: bool)
    ensures
        broadcast == (policy == EchoPolicy::Always || published),
{
    match policy {
        EchoPolicy::Always => true,
        EchoPolicy::OnlyIfPublished => published,
    }
}

/// One of the two flows of a session.
#[derive(Clone, Copy, Debug, PartialEq, Eq, Structural)]
pub enum Flow {
    Inbound,
    Outbound,
}

/// The life of a session.
#[derive(Clone, Copy, Debug, PartialEq, Eq, Structural)]
pub enum SessionState {
    /// Both flows run.
    Active,
    /// This flow has ended; the other is being cancelled.
    Closing(Flow),
    /// Both flows have ended.
    Closed,
}

/// The flow that runs beside `f`.
pub open spec fn sibling(f: Flow) -> Flow {
    match f {
        Flow::Inbound => Flow::Outbound,
        Flow::Outbound => Flow::Inbound,
    }
}

/// The state after flow `f` ends.
pub open spec fn after_flow_ended(s: SessionState, f: Flow) -> SessionState {
    match s {
        SessionState::Active => SessionState::Closing(f),
        SessionState::Closing(g) => if g == f {
            s
        } else {
            SessionState::Closed
        },
        SessionState::Closed => SessionState::Closed,
    }
}

/// The flow to cancel when flow `f` ends.
pub open spec fn to_cancel(s: SessionState, f: Flow) -> Option<Flow> {
    match s {
        SessionState::Active => Some(sibling(f)),
        _ => None,
    }
}

/// The state once the cancelled flow has stopped.
pub open spec fn after_cancelled(s: SessionState) -> SessionState {
    match s {
        SessionState::Active => SessionState::Active,
        _ => SessionState::Closed,
    }
}

/// The state of one connection session.
pub struct Session {
    state: SessionState,
}

impl View for Session {
    type V = SessionState;

    closed spec fn view(&self) -> SessionState {
        self.state
    }
}

impl Session {
    /// A session whose two flows have just started.
    pub fn new() -> (r: Session)
        ensures
            r@ == SessionState::Active,
    {
        Session { state: SessionState::Active }
    }

    /// The state of the session.
    pub fn state(&self) -> (r: SessionState)
        ensures
            r == self@,
    {
        self.state
    }

    /// Whether the session is active, both flows running.
    pub fn is_active(&self) -> (r: bool)
        ensures
            r == (self@ == SessionState::Active),
    {
        self.state == SessionState::Active
    }

    /// Records that flow `f` has ended; returns the flow to cancel, where the
    /// session was active.
    pub fn flow_ended(&mut self, f: Flow) -> (cancel: Option<Flow>)
        ensures
            final(self)@ == after_flow_ended(old(self)@, f),
            cancel == to_cancel(old(self)@, f),
    {
        match self.state {
            SessionState::Active => {
                self.state = SessionState::Closing(f);
                Some(match f {
                    Flow::Inbound => Flow::Outbound,
                    Flow::Outbound => Flow::Inbound,
                })
            },
            SessionState::Closing(g) => {
                if g != f {
                    self.state = SessionState::Closed;
                }
                None
            },
            SessionState::Closed => None,
        }
    }

    /// Records that the cancelled flow has stopped.
    pub fn cancelled(&mut self)
        ensures
            final(self)@ == after_cancelled(old(self)@),
    {
        if self.state != SessionState::Active {
            self.state = SessionState::Closed;
        }
    }
}

/// When either flow of an active session ends, the other is cancelled, and
/// once it has stopped the session is closed; it is closed too where the
/// other flow ends of itself first. A closed session stays closed.
pub proof fn law_session_teardown(f: Flow)
    ensures
        to_cancel(SessionState::Active, f) == Some(sibling(f)),
        after_cancelled(after_flow_ended(SessionState::Active, f)) == SessionState::Closed,
        after_flow_ended(after_flow_ended(SessionState::Active, f), sibling(f)) == SessionState::Closed,
        forall|g: Flow| #[trigger] after_flow_ended(SessionState::Closed, g) == SessionState::Closed,
        after_cancelled(SessionState::Closed) == SessionState::Closed,
{
}

} // verus!
