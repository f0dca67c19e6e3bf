//! Core of a two-player matchmaking and gameplay engine.
//!
//! One user invites another to a best-of-one-round game of
//! rock/paper/scissors; the invitee accepts or declines; on acceptance the
//! two participants submit simultaneous-reveal moves until a round produces
//! a winner. The library owns the session lifecycle: the registry that
//! keeps every user in at most one live session, the invitation handshake,
//! the per-round turn state machine, and the termination paths (decline,
//! decisive round, explicit stop, timeout, deletion of the hosting
//! context), each of which must leave the registry clean.
//!
//! The surrounding process drives the engine: it turns inbound gateway
//! traffic into [`supervisor::Event`] values, feeds them to
//! [`supervisor::step`], and renders the returned [`supervisor::Action`].

pub mod game;
pub mod registry;
pub mod session;
pub mod handshake;
pub mod engine;
pub mod supervisor;
