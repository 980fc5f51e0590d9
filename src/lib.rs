//! Persistence of an access token and a refresh token in the host's secure
//! credential store.
//!
//! The store itself is reached by the caller: each operation here is a small
//! state machine that asks for one store call at a time and decides, from the
//! store's reply, whether to ask for the next one or to finish.
//! `memory` holds an in-memory store that answers those calls, and runs the
//! three operations against it.

pub mod account;
pub mod bridge;
pub mod memory;
pub mod laws;
