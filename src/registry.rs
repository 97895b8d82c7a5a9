use vstd::prelude::*;
use vstd::string::StringExecFns;
use crate::ual::{texts, StatementView, UALStatement};

verus! {

/// What an agent can do: handle one statement, writing rows to the ledger log.
pub trait MapleAgent {
    /// Whether handling `stmt` succeeds.
    spec fn accepts(&self, stmt: StatementView) -> bool;

    /// The rows that handling `stmt` appends to the log when it succeeds.
    spec fn log_rows(&self, stmt: StatementView) -> Seq<Seq<char>>;

    fn execute(&self, stmt: &UALStatement, log: &mut Vec<String>) -> (r: Result<(), String>)
        ensures
            r is Ok == self.accepts(stmt@),
            r is Ok ==> texts(final(log)@) == texts(old(log)@) + self.log_rows(stmt@),
            r is Err ==> final(log)@ == old(log)@,
    ;
}

/// An agent that accepts every statement and writes nothing to the log.
pub struct SimpleAgent;

impl MapleAgent for SimpleAgent {
    open spec fn accepts(&self, stmt: StatementView) -> bool {
        true
    }

    open spec fn log_rows(&self, stmt: StatementView) -> Seq<Seq<char>> {
        Seq::empty()
    }

    fn execute(&self, stmt: &UALStatement, log: &mut Vec<String>) -> (r: Result<(), String>) {
        assert(texts(log@) + Seq::<Seq<char>>::empty() =~= texts(log@));
        Ok(())
    }
}

/// The built-in agents. They differ only in the name they write into the log;
/// the generic one writes nothing.
#[derive(Debug, Clone, Copy, PartialEq, Eq, Structural)]
pub enum AgentRole {
    Generic,
    SystemCoordinator,
    ProductManager,
    Architect,
    ProjectManager,
    SystemEngineer,
    AppDeveloper,
    QaEngineer,
}

impl AgentRole {
    pub open spec fn spec_label(self) -> Seq<char> {
        match self {
            AgentRole::Generic => "agent"@,
            AgentRole::SystemCoordinator => "system_coordinator"@,
            AgentRole::ProductManager => "product_manager"@,
            AgentRole::Architect => "architect"@,
            AgentRole::ProjectManager => "project_manager"@,
            AgentRole::SystemEngineer => "system_engineer"@,
            AgentRole::AppDeveloper => "app_developer"@,
            AgentRole::QaEngineer => "qa_engineer"@,
        }
    }

    /// Whether the agent records what it handles in the ledger log.
    pub open spec fn is_ledger_backed(self) -> bool {
        self != AgentRole::Generic
    }

    /// The name the agent goes by.
    pub fn label(&self) -> (r: &'static str)
        ensures
            r@ == self.spec_label(),
    {
        match self {
            AgentRole::Generic => "agent",
            AgentRole::SystemCoordinator => "system_coordinator",
            AgentRole::ProductManager => "product_manager",
            AgentRole::Architect => "architect",
            AgentRole::ProjectManager => "project_manager",
            AgentRole::SystemEngineer => "system_engineer",
            AgentRole::AppDeveloper => "app_developer",
            AgentRole::QaEngineer => "qa_engineer",
        }
    }
}

/// The log row of a ledger-backed agent: `<label>: <verb> <target>`.
pub open spec fn role_row(role: AgentRole, stmt: StatementView) -> Seq<char> {
    role.spec_label() + ": "@ + stmt.verb + " "@ + stmt.target
}

impl MapleAgent for AgentRole {
    open spec fn accepts(&self, stmt: StatementView) -> bool {
        true
    }

    open spec fn log_rows(&self, stmt: StatementView) -> Seq<Seq<char>> {
        if self.is_ledger_backed() {
            seq![role_row(*self, stmt)]
        } else {
            Seq::empty()
        }
    }

    fn execute(&self, stmt: &UALStatement, log: &mut Vec<String>) -> (r: Result<(), String>) {
        if *self == AgentRole::Generic {
            assert(texts(log@) + Seq::<Seq<char>>::empty() =~= texts(log@));
            return Ok(());
        }
        let mut row = self.label().to_owned();
        row.append(": ");
        row.append(stmt.type_.as_str());
        row.append(" ");
        row.append(stmt.target.as_str());
        let ghost before = log@;
        log.push(row);
        assert(texts(log@) =~= texts(before) + seq![role_row(*self, stmt@)]);
        Ok(())
    }
}

/// Why a statement could not be dispatched.
#[derive(Debug, Clone, PartialEq, Eq)]
pub enum RoutingError {
    /// No agent is registered under the destination.
    AgentNotFound(String),
    /// The agent failed, with its message.
    ExecutionError(String),
}

impl RoutingError {
    pub open spec fn spec_message(&self) -> Seq<char> {
        match self {
            RoutingError::AgentNotFound(d) => "Agent '"@ + d@ + "' not found"@,
            RoutingError::ExecutionError(m) => m@,
        }
    }

    /// The line that reports the error.
    pub fn message(&self) -> (r: String)
        ensures
            r@ == self.spec_message(),
    {
        match self {
            RoutingError::AgentNotFound(d) => {
                let mut m = "Agent '".to_owned();
                m.append(d.as_str());
                m.append("' not found");
                m
            },
            RoutingError::ExecutionError(m) => m.clone(),
        }
    }
}

/// Whether dispatching `stmt` over the agents `reg` succeeds.
pub open spec fn dispatch_ok<A: MapleAgent>(reg: Map<Seq<char>, A>, stmt: StatementView) -> bool {
    reg.contains_key(stmt.destination) && reg[stmt.destination].accepts(stmt)
}

/// The rows that dispatching `stmt` over the agents `reg` writes.
pub open spec fn dispatch_rows<A: MapleAgent>(reg: Map<Seq<char>, A>, stmt: StatementView) -> Seq<
    Seq<char>,
> {
    if dispatch_ok(reg, stmt) {
        reg[stmt.destination].log_rows(stmt)
    } else {
        Seq::empty()
    }
}

/// The agents registered by id: each id stands for the agent registered under it last.
pub open spec fn agents_map<A>(e: Seq<(String, A)>) -> Map<Seq<char>, A>
    decreases e.len(),
{
    if e.len() == 0 {
        Map::empty()
    } else {
        agents_map(e.drop_last()).insert(e.last().0@, e.last().1)
    }
}

/// A table from destination id to the agent that handles it. Registering
/// again under an id puts the new agent in place of the earlier one; lookups
/// take no lock shared between agents.
pub struct AgentRegistry<A> {
    agents: Vec<(String, A)>,
}

impl<A> View for AgentRegistry<A> {
    type V = Map<Seq<char>, A>;

    closed spec fn view(&self) -> Map<Seq<char>, A> {
        agents_map(self.agents@)
    }
}

proof fn lemma_agents_map_skip<A>(e: Seq<(String, A)>, i: int, id: Seq<char>)
    requires
        0 <= i < e.len(),
        e[i].0@ != id,
    ensures
        agents_map(e.take(i + 1)).contains_key(id) == agents_map(e.take(i)).contains_key(id),
        agents_map(e.take(i + 1)).contains_key(id) ==> agents_map(e.take(i + 1))[id] == agents_map(
            e.take(i),
        )[id],
{
    assert(e.take(i + 1).drop_last() =~= e.take(i));
}

impl<A: MapleAgent> AgentRegistry<A> {
    /// An empty registry.
    pub fn new() -> (r: Self)
        ensures
            r@ == Map::<Seq<char>, A>::empty(),
    {
        AgentRegistry { agents: Vec::new() }
    }

    /// Registers `agent` under `id`, in place of any agent registered there before.
    pub fn register(&mut self, id: String, agent: A)
        ensures
            final(self)@ == old(self)@.insert(id@, agent),
    {
        let ghost before = self.agents@;
        self.agents.push((id, agent));
        assert(self.agents@.drop_last() =~= before);
    }

    /// The position of the entry that stands for `id`, if any.
    fn find(&self, id: &String) -> (r: Option<usize>)
        ensures
            r is None <==> !self@.contains_key(id@),
            r matches Some(i) ==> i < self.agents@.len() && self@[id@] == self.agents@[i as int].1,
    {
        let ghost e = self.agents@;
        let mut i = self.agents.len();
        assert(e.take(i as int) =~= e);
        while i > 0
            invariant
                i <= e.len(),
                e == self.agents@,
                agents_map(e).contains_key(id@) == agents_map(e.take(i as int)).contains_key(id@),
                agents_map(e).contains_key(id@) ==> agents_map(e)[id@] == agents_map(
                    e.take(i as int),
                )[id@],
            decreases i,
        {
            let j = i - 1;
            if self.agents[j].0 == *id {
                assert(e.take(i as int).drop_last() =~= e.take(j as int));
                return Some(j);
            }
            proof {
                lemma_agents_map_skip(e, j as int, id@);
            }
            i = j;
        }
        assert(e.take(0) =~= Seq::<(String, A)>::empty());
        None
    }

    /// Whether an agent is registered under `id`.
    pub fn contains(&self, id: &String) -> (r: bool)
        ensures
            r == self@.contains_key(id@),
    {
        self.find(id).is_some()
    }

    /// Hands `stmt` to the agent registered under its destination, once. With
    /// no agent there it fails with `AgentNotFound` and writes nothing.
    pub fn execute(&self, stmt: &UALStatement, log: &mut Vec<String>) -> (r: Result<
        (),
        RoutingError,
    >)
        ensures
            r is Ok == dispatch_ok(self@, stmt@),
            r is Ok ==> texts(final(log)@) == texts(old(log)@) + dispatch_rows(
                self@,
                stmt@,
            ),
            r is Err ==> final(log)@ == old(log)@,
            !self@.contains_key(stmt.destination@) ==> (r matches Err(
                RoutingError::AgentNotFound(d),
            ) && d@ == stmt.destination@),
            self@.contains_key(stmt.destination@) && r is Err ==> r matches Err(
                RoutingError::ExecutionError(_),
            ),
    {
        match self.find(&stmt.destination) {
            None => Err(RoutingError::AgentNotFound(stmt.destination.clone())),
            Some(i) => match self.agents[i].1.execute(stmt, log) {
                Ok(()) => Ok(()),
                Err(e) => Err(RoutingError::ExecutionError(e)),
            },
        }
    }
}

/// A ledger-backed agent writes exactly one row for each statement it
/// handles; the generic agent writes none.
pub proof fn lemma_one_row_per_call(role: AgentRole, stmt: StatementView)
    ensures
        role.is_ledger_backed() ==> role.log_rows(stmt) == seq![role_row(role, stmt)],
        !role.is_ledger_backed() ==> role.log_rows(stmt).len() == 0,
{
}

} // verus!
