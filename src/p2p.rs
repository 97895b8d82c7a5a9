use vstd::prelude::*;
use vstd::string::StringExecFns;
use crate::envelope::{EnvelopeView, MapMessage};
use crate::ual::{texts, StatementView, UALStatement};

verus! {

/// The topic that task envelopes are broadcast on.
pub fn task_topic() -> (r: &'static str)
    ensures
        r@ == "maple-tasks"@,
{
    "maple-tasks"
}

/// Where the peer-to-peer transport stands.
#[derive(Debug, Clone, Copy, PartialEq, Eq, Structural)]
pub enum TransportState {
    Idle,
    Listening,
    Running,
    Stopped,
}

/// What happened: to the transport, on the network, or from the node.
pub enum TransportEvent {
    /// The listener is bound.
    Bound,
    /// The listener could not be bound.
    BindFailed,
    /// The event loop is running.
    LoopStarted,
    /// Peers were found at these addresses.
    Discovered(Vec<String>),
    /// Dialling this address failed.
    DialFailed(String),
    /// A message arrived on the topic: the envelope it holds, or none when it
    /// does not read as one.
    Inbound(Option<MapMessage>),
    /// The node asks for an envelope to be broadcast.
    Outbound(MapMessage),
    /// The node is shutting down.
    Stop,
}

/// What the transport's driver does next.
pub enum TransportAction {
    Nothing,
    /// Give up: the process cannot run without its listener.
    Exit,
    Dial(Vec<String>),
    /// Hand the statement to the local registry.
    Route(UALStatement),
    /// Broadcast the envelope on the task topic.
    Publish(MapMessage),
    /// Report this line and carry on.
    Report(String),
}

pub enum EventView {
    Bound,
    BindFailed,
    LoopStarted,
    Discovered(Seq<Seq<char>>),
    DialFailed(Seq<char>),
    Inbound(Option<EnvelopeView>),
    Outbound(EnvelopeView),
    Stop,
}

pub enum ActionView {
    Nothing,
    Exit,
    Dial(Seq<Seq<char>>),
    Route(StatementView),
    Publish(EnvelopeView),
    Report(Seq<char>),
}

impl View for TransportEvent {
    type V = EventView;

    open spec fn view(&self) -> EventView {
        match self {
            TransportEvent::Bound => EventView::Bound,
            TransportEvent::BindFailed => EventView::BindFailed,
            TransportEvent::LoopStarted => EventView::LoopStarted,
            TransportEvent::Discovered(a) => EventView::Discovered(texts(a@)),
            TransportEvent::DialFailed(a) => EventView::DialFailed(a@),
            TransportEvent::Inbound(m) => EventView::Inbound(
                match m {
                    Some(m) => Some(m@),
                    None => None,
                },
            ),
            TransportEvent::Outbound(m) => EventView::Outbound(m@),
            TransportEvent::Stop => EventView::Stop,
        }
    }
}

impl View for TransportAction {
    type V = ActionView;

    open spec fn view(&self) -> ActionView {
        match self {
            TransportAction::Nothing => ActionView::Nothing,
            TransportAction::Exit => ActionView::Exit,
            TransportAction::Dial(a) => ActionView::Dial(texts(a@)),
            TransportAction::Route(s) => ActionView::Route(s@),
            TransportAction::Publish(m) => ActionView::Publish(m@),
            TransportAction::Report(l) => ActionView::Report(l@),
        }
    }
}

pub open spec fn malformed_msg() -> Seq<char> {
    "dropped a message that is not an envelope"@
}

pub open spec fn dial_failed_msg(addr: Seq<char>) -> Seq<char> {
    "dial failed: "@ + addr
}

/// The transport's rules. Binding moves an idle transport to listening, or
/// stops it for good; a listening transport starts running. A running one
/// dials what it discovers, routes each envelope that arrives, drops and
/// reports what does not read as one, reports failed dials, and publishes
/// what the node sends. Stopping is possible from every state but the last;
/// any other event leaves the state as it is and does nothing.
pub open spec fn spec_step(state: TransportState, event: EventView) -> (TransportState, ActionView) {
    match (state, event) {
        (TransportState::Idle, EventView::Bound) => (TransportState::Listening, ActionView::Nothing),
        (TransportState::Idle, EventView::BindFailed) => (TransportState::Stopped, ActionView::Exit),
        (TransportState::Listening, EventView::LoopStarted) => (
            TransportState::Running,
            ActionView::Nothing,
        ),
        (TransportState::Running, EventView::Discovered(a)) => (
            TransportState::Running,
            ActionView::Dial(a),
        ),
        (TransportState::Running, EventView::DialFailed(a)) => (
            TransportState::Running,
            ActionView::Report(dial_failed_msg(a)),
        ),
        (TransportState::Running, EventView::Inbound(Some(m))) => (
            TransportState::Running,
            ActionView::Route(m.payload),
        ),
        (TransportState::Running, EventView::Inbound(None)) => (
            TransportState::Running,
            ActionView::Report(malformed_msg()),
        ),
        (TransportState::Running, EventView::Outbound(m)) => (
            TransportState::Running,
            ActionView::Publish(m),
        ),
        (TransportState::Stopped, _) => (TransportState::Stopped, ActionView::Nothing),
        (_, EventView::Stop) => (TransportState::Stopped, ActionView::Nothing),
        (s, _) => (s, ActionView::Nothing),
    }
}

/// Applies the transport's rules to one event.
pub fn step(state: TransportState, event: TransportEvent) -> (r: (TransportState, TransportAction))
    ensures
        (r.0, r.1@) == spec_step(state, event@),
{
    match (state, event) {
        (TransportState::Idle, TransportEvent::Bound) => (
            TransportState::Listening,
            TransportAction::Nothing,
        ),
        (TransportState::Idle, TransportEvent::BindFailed) => (
            TransportState::Stopped,
            TransportAction::Exit,
        ),
        (TransportState::Listening, TransportEvent::LoopStarted) => (
            TransportState::Running,
            TransportAction::Nothing,
        ),
        (TransportState::Running, TransportEvent::Discovered(a)) => (
            TransportState::Running,
            TransportAction::Dial(a),
        ),
        (TransportState::Running, TransportEvent::DialFailed(a)) => {
            let mut line = "dial failed: ".to_owned();
            line.append(a.as_str());
            proof {
                reveal_strlit("dial failed: ");
            }
            (TransportState::Running, TransportAction::Report(line))
        },
        (TransportState::Running, TransportEvent::Inbound(Some(m))) => (
            TransportState::Running,
            TransportAction::Route(m.payload),
        ),
        (TransportState::Running, TransportEvent::Inbound(None)) => (
            TransportState::Running,
            TransportAction::Report("dropped a message that is not an envelope".to_owned()),
        ),
        (TransportState::Running, TransportEvent::Outbound(m)) => (
            TransportState::Running,
            TransportAction::Publish(m),
        ),
        (TransportState::Stopped, _) => (TransportState::Stopped, TransportAction::Nothing),
        (_, TransportEvent::Stop) => (TransportState::Stopped, TransportAction::Nothing),
        (s, _) => (s, TransportAction::Nothing),
    }
}

} // verus!
