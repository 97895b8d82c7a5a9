use vstd::prelude::*;
use crate::ual::{StatementView, UALStatement};

verus! {

/// The one kind of envelope there is.
pub open spec fn task_assignment() -> Seq<char> {
    "TaskAssignment"@
}

/// A statement on its way to an agent: who sends it, who receives it, and
/// what kind of envelope it is.
#[derive(Debug, Clone)]
pub struct MapMessage {
    pub type_: String,
    pub sender: String,
    pub receiver: String,
    pub payload: UALStatement,
}

pub struct EnvelopeView {
    pub kind: Seq<char>,
    pub sender: Seq<char>,
    pub receiver: Seq<char>,
    pub payload: StatementView,
}

impl View for MapMessage {
    type V = EnvelopeView;

    open spec fn view(&self) -> EnvelopeView {
        EnvelopeView {
            kind: self.type_@,
            sender: self.sender@,
            receiver: self.receiver@,
            payload: self.payload@,
        }
    }
}

/// Wraps `stmt` for delivery: a task assignment from `sender` to the
/// statement's destination.
pub fn create_map_message(stmt: UALStatement, sender: &str) -> (m: MapMessage)
    ensures
        m@.kind == task_assignment(),
        m@.sender == sender@,
        m@.receiver == stmt.destination@,
        m.payload == stmt,
{
    let receiver = stmt.destination.clone();
    MapMessage {
        type_: "TaskAssignment".to_owned(),
        sender: sender.to_owned(),
        receiver,
        payload: stmt,
    }
}

} // verus!
