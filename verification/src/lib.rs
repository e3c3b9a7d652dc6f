//! Peer session establishment for NAT-traversing peer-to-peer connections.
//!
//! Two hosts behind uncontrolled network boundaries reach each other through
//! a publicly reachable relay: each peer binds its local transports, connects
//! to the relay, learns its externally observed address, registers a
//! reservation so others can reach it over a relayed circuit, and cooperates
//! with the remote peer to upgrade the relayed circuit to a direct
//! connection. The relay is a bootstrap and fallback path, never the
//! long-term data plane.
//!
//! This crate holds the protocol logic: the data model (identities,
//! composable network addresses, listen endpoints, relay sessions,
//! reservations, circuits) and the event-driven session orchestrator that
//! sequences them. All transport I/O lives outside; the orchestrator is a
//! pure state machine consuming discrete events and emitting actions.

pub mod identity;
pub mod address;
pub mod errors;
pub mod endpoint;
pub mod relay;
pub mod reservation;
pub mod circuit;
pub mod orchestrator;
pub mod text;
