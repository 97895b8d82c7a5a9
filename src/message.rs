use vstd::prelude::*;

verus! {

#[verifier::external_type_specification]
#[verifier::external_body]
pub struct ExJsonValue(serde_json::Value);

#[verifier::external_type_specification]
#[verifier::external_body]
pub struct ExJsonError(serde_json::Error);

/// Whether `b` holds one JSON value, as `serde_json` reads it.
pub uninterp spec fn json_accepts(b: Seq<u8>) -> bool;

/// Relies on `serde_json::from_slice::<Value>`: it succeeds exactly when the
/// bytes hold one JSON value, and its answer depends on the bytes alone.
#[verifier::external_body]
fn json_from_slice(b: &[u8]) -> (r: Result<serde_json::Value, serde_json::Error>)
    ensures
        r is Ok == json_accepts(b@),
{
    serde_json::from_slice(b)
}

/// Relies on `serde_json::to_vec` to write a value as JSON bytes.
#[verifier::external_body]
fn json_to_vec(v: &serde_json::Value) -> (r: Result<Vec<u8>, serde_json::Error>) {
    serde_json::to_vec(v)
}

/// Relies on the `Display` of `serde_json::Value`, which writes compact JSON text.
#[verifier::external_body]
pub(crate) fn json_text(v: &serde_json::Value) -> (r: String) {
    v.to_string()
}

/// How a message's payload is encoded.
#[derive(Debug, Clone, Copy, PartialEq, Eq, Structural)]
pub enum Mode {
    /// A JSON document.
    Json,
    /// Reserved for a binary RPC encoding; not implemented, and refused.
    Grpc,
    /// Raw bytes.
    ByteLevel,
}

/// Why a message could not be built, read or handled.
#[derive(Debug, Clone, Copy, PartialEq, Eq, Structural)]
pub enum MessageError {
    /// The payload given does not match the message's mode.
    WrongMode,
    /// The payload is not JSON, or could not be written as JSON.
    Json,
    /// A byte-level payload has no generic decoding.
    ByteLevelDecode,
    /// The binary RPC mode is reserved and not implemented.
    Unsupported,
    /// A byte-level payload is not UTF-8 text.
    NotText,
}

/// An action with a payload in one of the modes.
#[derive(Debug, Clone)]
pub struct UalMessage {
    pub action: String,
    pub mode: Mode,
    pub payload: Vec<u8>,
}

impl UalMessage {
    /// A message with an empty payload.
    pub fn new(action: &str, mode: Mode) -> (r: Self)
        ensures
            r.action@ == action@,
            r.mode == mode,
            r.payload@.len() == 0,
    {
        UalMessage { action: action.to_owned(), mode, payload: Vec::new() }
    }

    /// The message with `payload`, written as JSON, as its payload. Only a JSON
    /// message takes one.
    pub fn with_json_payload(self, payload: &serde_json::Value) -> (r: Result<Self, MessageError>)
        ensures
            self.mode != Mode::Json ==> r == Err::<Self, MessageError>(MessageError::WrongMode),
            self.mode == Mode::Json ==> r is Err ==> r == Err::<Self, MessageError>(
                MessageError::Json,
            ),
            r matches Ok(m) ==> m.action == self.action && m.mode == self.mode,
    {
        if self.mode != Mode::Json {
            return Err(MessageError::WrongMode);
        }
        match json_to_vec(payload) {
            Ok(bytes) => Ok(UalMessage { action: self.action, mode: self.mode, payload: bytes }),
            Err(_) => Err(MessageError::Json),
        }
    }

    /// The message with `payload` as its raw payload.
    pub fn with_byte_payload(self, payload: Vec<u8>) -> (r: Self)
        requires
            self.mode == Mode::ByteLevel,
        ensures
            r.action == self.action,
            r.mode == self.mode,
            r.payload == payload,
    {
        UalMessage { action: self.action, mode: self.mode, payload }
    }

    /// Reads a JSON payload. A byte-level payload has no generic reading, and
    /// the reserved mode is refused.
    pub fn decode(&self) -> (r: Result<serde_json::Value, MessageError>)
        ensures
            self.mode == Mode::Json ==> (r is Ok == json_accepts(self.payload@)),
            self.mode == Mode::Json && r is Err ==> r == Err::<serde_json::Value, MessageError>(
                MessageError::Json,
            ),
            self.mode == Mode::ByteLevel ==> r == Err::<serde_json::Value, MessageError>(
                MessageError::ByteLevelDecode,
            ),
            self.mode == Mode::Grpc ==> r == Err::<serde_json::Value, MessageError>(
                MessageError::Unsupported,
            ),
    {
        match self.mode {
            Mode::Json => match json_from_slice(self.payload.as_slice()) {
                Ok(v) => Ok(v),
                Err(_) => Err(MessageError::Json),
            },
            Mode::Grpc => Err(MessageError::Unsupported),
            Mode::ByteLevel => Err(MessageError::ByteLevelDecode),
        }
    }

    /// The bytes to send: the payload as it stands. The reserved mode is refused.
    pub fn encode(&self) -> (r: Result<Vec<u8>, MessageError>)
        ensures
            self.mode == Mode::Grpc ==> r == Err::<Vec<u8>, MessageError>(
                MessageError::Unsupported,
            ),
            self.mode != Mode::Grpc ==> r is Ok && r->Ok_0@ == self.payload@,
    {
        match self.mode {
            Mode::Grpc => Err(MessageError::Unsupported),
            _ => Ok(self.payload.clone()),
        }
    }
}

} // verus!
