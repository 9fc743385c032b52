//! Crowdfunding campaigns on a shared ledger: instruction decoding, the
//! persistent record layout, and the create / donate / withdraw state machine.

pub mod state;
pub mod codec;
pub mod record;
pub mod instruction;
pub mod engine;
pub mod laws;
