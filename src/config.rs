use vstd::prelude::*;

verus! {

/// How a node runs: `distributed` or `enterprise`.
#[derive(Debug, Clone)]
pub struct MapleConfig {
    pub node_mode: String,
}

impl Default for MapleConfig {
    /// A distributed node.
    fn default() -> (r: Self)
        ensures
            r.node_mode@ == "distributed"@,
    {
        MapleConfig { node_mode: "distributed".to_owned() }
    }
}

/// The two ways a node runs.
#[derive(Debug, Clone, Copy, PartialEq, Eq, Structural)]
pub enum RuntimeMode {
    Distributed,
    Enterprise,
}

impl RuntimeMode {
    /// The mode a node is started in by name: `enterprise`, or distributed
    /// for any other name.
    pub fn from_name(name: &str) -> (r: Self)
        ensures
            r == (if name@ == "enterprise"@ {
                RuntimeMode::Enterprise
            } else {
                RuntimeMode::Distributed
            }),
    {
        if name.to_owned() == "enterprise".to_owned() {
            RuntimeMode::Enterprise
        } else {
            RuntimeMode::Distributed
        }
    }
}

/// Settings of a node's runtime.
#[derive(Debug, Clone)]
pub struct RuntimeConfig {
    pub mode: RuntimeMode,
    pub map_listen_addr: String,
    pub db_path: String,
}

/// Requests to a node's runtime.
#[derive(Debug, Clone)]
pub enum RuntimeCommand {
    /// Start the agent with this DID.
    SpawnAgent(String),
    Shutdown,
}

/// Requests about an agent, by DID.
#[derive(Debug, Clone)]
pub enum AgentCommand {
    Spawn(String),
    Terminate(String),
}

/// Failure of the core's command channel.
#[derive(Debug, Clone)]
pub enum CoreError {
    ChannelError(String),
}

/// Settings of the peer-to-peer transport.
#[derive(Debug, Clone)]
pub struct MapConfig {
    pub listen_addr: String,
}

/// Settings of the HTTP front end.
#[derive(Debug, Clone)]
pub struct ApiConfig {
    pub bind_addr: String,
    pub secret_key: String,
}

/// Settings of a training run.
#[derive(Debug, Clone)]
pub struct MallConfig {
    pub task: String,
    pub iterations: u32,
}

/// A project row of the ledger.
#[derive(Debug, Clone)]
pub struct Project {
    pub id: i64,
    pub name: String,
    pub description: String,
    pub status: String,
}

/// An agent definition row of the ledger.
#[derive(Debug, Clone)]
pub struct AgentDef {
    pub id: String,
    pub role: String,
    pub description: String,
}

/// A user row of the ledger: an id and its role, `admin` or `user`.
#[derive(Debug, Clone)]
pub struct User {
    pub id: String,
    pub role: String,
}

/// A vector store for agent memory; nothing is stored yet.
pub struct VectorDb {}

impl VectorDb {
    pub fn new() -> (r: Self) {
        VectorDb {  }
    }
}

} // verus!
