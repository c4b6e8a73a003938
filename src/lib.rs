//! A settlement engine for bilateral options whose premium is held in escrow.
//!
//! A contract is created and funded from the buyer's account into the
//! contract's own vault (`contract`); participants deposit margin independently
//! (`margin`); at or after expiry, settlement reads the oracle's price
//! (`oracle`), picks the winner by the strike comparison and releases the whole
//! premium to that party exactly once (`settle`). Every operation either goes
//! through or fails with a named error and changes nothing. `laws` states and
//! proves the properties that hold across calls.

pub mod contract;
pub mod error;
pub mod events;
pub mod keys;
pub mod laws;
pub mod ledger;
pub mod margin;
pub mod oracle;
pub mod registry;
pub mod settle;
