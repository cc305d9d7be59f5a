//! A two-player, turn-based adversarial game session governed by a
//! commit-reveal protocol with delegated score resolution.
//!
//! The core is the turn/phase state machine together with its data model and
//! authorization rules: it serializes player actions into a strict phase
//! order, rejects out-of-phase or unauthorized calls, and accumulates scores
//! with saturating arithmetic across a fixed number of turns until a terminal
//! state. Persistent storage, authentication of callers and the off-chain
//! relayer that verifies zero-knowledge proofs and supplies score deltas are
//! external collaborators: the host shell loads the session, invokes one
//! operation, and stores the session back.

pub mod game;
pub mod types;
