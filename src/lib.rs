//! Agents that exchange task statements, written in a small command language
//! (UAL), and move between nodes as binary snapshots.
//!
//! - `ual`: the command language and its parser.
//! - `envelope`: a statement wrapped for delivery.
//! - `registry`: agents by destination id, and dispatch to them.
//! - `package`: named workflows of UAL lines, run in order.
//! - `admin`: the line protocol that administers an enterprise node.
//! - `p2p`: the rules of the peer-to-peer transport's event loop.
//! - `message`: message payloads by mode.
//! - `agent`: an agent's identity and how it handles a message.
//! - `snapshot`: the binary snapshot format.
//! - `llm`, `config`: model stand-ins, settings and ledger rows.

pub mod admin;
pub mod agent;
pub mod config;
pub mod envelope;
pub mod llm;
pub mod message;
pub mod p2p;
pub mod package;
pub mod registry;
pub mod snapshot;
pub mod ual;
