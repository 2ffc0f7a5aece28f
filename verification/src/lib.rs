//! An escrow engine for a three-party rental workflow on a shared ledger:
//! a client rents an agent service, a trusted worker reports the result,
//! and the result is settled by minting a record in a collaborator
//! component. The library owns the job state machine — identifier
//! allocation, authorization, and exactly-once state transitions — and
//! returns the settlement mint request as a message value for the host
//! to dispatch atomically.

pub mod addr;
pub mod contract;
pub mod error;
pub mod laws;
pub mod msg;
pub mod numeral;
pub mod state;

pub use error::ContractError;
