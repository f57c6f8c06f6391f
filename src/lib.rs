//! Server-side orchestration of two-player turn-based matches: pairing
//! waiting players, owning each match's state, checking turn order and
//! building the notices that go out to both participants.

mod coin;
pub mod engine;
pub mod master;
pub mod matchmaker;
pub mod messages;
pub mod session;
