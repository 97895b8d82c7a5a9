use vstd::prelude::*;
use vstd::string::StringExecFns;
use vstd::utf8::{decode_utf8, encode_utf8, valid_utf8};
use crate::message::{json_accepts, json_text, MessageError, Mode, UalMessage};
use crate::snapshot::{
    encode_snapshot, has_magic, snapshot_bytes, starts_with_magic, string_from_utf8, Snapshot,
    SNAPSHOT_VERSION,
};

verus! {

/// An agent's name and role.
#[derive(Debug, Clone)]
pub struct AgentConfig {
    pub name: String,
    pub role: String,
}

pub open spec fn is_hex_digit(c: char) -> bool {
    let u = c as u32;
    (0x30 <= u <= 0x39) || (0x61 <= u <= 0x66)
}

/// The hyphenated lower-case text of a UUID: 36 characters, hyphens at
/// positions 8, 13, 18 and 23, hex digits everywhere else.
pub open spec fn is_uuid_text(s: Seq<char>) -> bool {
    &&& s.len() == 36
    &&& forall|i: int|
        0 <= i < 36 ==> if i == 8 || i == 13 || i == 18 || i == 23 {
            s[i] == '-'
        } else {
            is_hex_digit(#[trigger] s[i])
        }
}

/// Relies on `uuid::Uuid::new_v4` for a random UUID, and on its `Display`,
/// which writes the hyphenated lower-case form.
#[verifier::external_body]
fn new_uuid_text() -> (r: String)
    ensures
        is_uuid_text(r@),
{
    uuid::Uuid::new_v4().to_string()
}

pub open spec fn did_prefix() -> Seq<char> {
    "did:maple:agent:"@
}

/// An agent's identity: its DID, its configuration and its opaque state.
pub struct Agent {
    pub did: String,
    pub config: AgentConfig,
    pub state: Vec<u8>,
}

impl Agent {
    /// A fresh agent: a new DID `did:maple:agent:<uuid>` and an empty state.
    pub fn new(config: AgentConfig) -> (r: Self)
        ensures
            r.did@.len() == 52,
            r.did@.take(16) == did_prefix(),
            is_uuid_text(r.did@.skip(16)),
            r.config == config,
            r.state@.len() == 0,
    {
        let mut did = "did:maple:agent:".to_owned();
        let u = new_uuid_text();
        did.append(u.as_str());
        proof {
            reveal_strlit("did:maple:agent:");
            assert(did@.take(16) =~= did_prefix());
            assert(did@.skip(16) =~= u@);
        }
        Agent { did, config, state: Vec::new() }
    }

    /// The agent that a decoded snapshot describes, with its configuration
    /// decoded from the snapshot's configuration bytes.
    pub fn from_snapshot(snapshot: Snapshot, config: AgentConfig) -> (r: Self)
        ensures
            r.did@ == snapshot.did@,
            r.config == config,
            r.state@ == snapshot.state@,
    {
        Agent { did: snapshot.did, config, state: snapshot.state }
    }

    /// The snapshot of this agent, with `config` as its configuration bytes.
    pub fn dump(&self, config: &[u8]) -> (r: Vec<u8>)
        requires
            config@.len() <= u32::MAX,
            self.state@.len() <= u32::MAX,
        ensures
            r@ == snapshot_bytes(SNAPSHOT_VERSION, encode_utf8(self.did@), config@, self.state@),
    {
        encode_snapshot(self.did.as_str(), config, self.state.as_slice())
    }

    /// Handles one message by its mode: a JSON payload is read and echoed; a
    /// byte-level payload that opens with the snapshot magic is recognised as a
    /// snapshot, any other is read as text; the reserved mode is refused.
    pub fn process_message(&self, msg: &UalMessage) -> (r: Result<String, MessageError>)
        ensures
            msg.mode == Mode::Json ==> (r is Ok == json_accepts(msg.payload@)),
            msg.mode == Mode::Json && r is Err ==> r == Err::<String, MessageError>(
                MessageError::Json,
            ),
            msg.mode == Mode::Json && r is Ok ==> r->Ok_0@.take(
                handled_prefix(self.config.name@, msg.action@).len() as int,
            ) == handled_prefix(self.config.name@, msg.action@),
            msg.mode == Mode::ByteLevel && has_magic(msg.payload@) ==> (r matches Ok(s) && s@
                == "Agent "@ + self.config.name@ + " recognized .map data"@),
            msg.mode == Mode::ByteLevel && !has_magic(msg.payload@) && valid_utf8(msg.payload@) ==> (
            r matches Ok(s) && s@ == "Agent "@ + self.config.name@ + " handled byte-level "@
                + msg.action@ + ": "@ + decode_utf8(msg.payload@)),
            msg.mode == Mode::ByteLevel && !has_magic(msg.payload@) && !valid_utf8(msg.payload@)
                ==> r == Err::<String, MessageError>(MessageError::NotText),
            msg.mode == Mode::Grpc ==> r == Err::<String, MessageError>(MessageError::Unsupported),
    {
        match msg.mode {
            Mode::Json => {
                let v = match msg.decode() {
                    Ok(v) => v,
                    Err(e) => {
                        return Err(e);
                    },
                };
                let mut s = "Agent ".to_owned();
                s.append(self.config.name.as_str());
                s.append(" handled ");
                s.append(msg.action.as_str());
                s.append(" with payload: ");
                let ghost pre = s@;
                let text = json_text(&v);
                s.append(text.as_str());
                assert(s@.take(pre.len() as int) =~= pre);
                Ok(s)
            },
            Mode::ByteLevel => {
                if starts_with_magic(msg.payload.as_slice()) {
                    let mut s = "Agent ".to_owned();
                    s.append(self.config.name.as_str());
                    s.append(" recognized .map data");
                    Ok(s)
                } else {
                    match string_from_utf8(msg.payload.clone()) {
                        Some(text) => {
                            let mut s = "Agent ".to_owned();
                            s.append(self.config.name.as_str());
                            s.append(" handled byte-level ");
                            s.append(msg.action.as_str());
                            s.append(": ");
                            s.append(text.as_str());
                            Ok(s)
                        },
                        None => Err(MessageError::NotText),
                    }
                }
            },
            Mode::Grpc => Err(MessageError::Unsupported),
        }
    }
}

/// How the reply to a JSON message opens: `Agent <name> handled <action> with payload: `.
pub open spec fn handled_prefix(name: Seq<char>, action: Seq<char>) -> Seq<char> {
    "Agent "@ + name + " handled "@ + action + " with payload: "@
}

} // verus!
