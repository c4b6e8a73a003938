use vstd::prelude::*;
use crate::keys::Pubkey;

verus! {

/// Recorded when a contract is created and funded.
#[derive(Clone, Copy, Debug, PartialEq, Eq, Structural)]
pub struct OptionCreated {
    pub buyer: Pubkey,
    pub seller: Pubkey,
    pub strike_price: u64,
    pub expiry: i64,
}

/// Recorded when a contract is settled: the party paid, and the price that decided.
#[derive(Clone, Copy, Debug, PartialEq, Eq, Structural)]
pub struct OptionSettled {
    pub option_contract: Pubkey,
    pub winner: Pubkey,
    pub price: u64,
}

/// Recorded when margin is deposited.
#[derive(Clone, Copy, Debug, PartialEq, Eq, Structural)]
pub struct MarginDeposited {
    pub user: Pubkey,
    pub amount: u64,
}

/// One entry of the append-only event log.
#[derive(Clone, Copy, Debug, PartialEq, Eq, Structural)]
pub enum Event {
    Created(OptionCreated),
    Settled(OptionSettled),
    Deposited(MarginDeposited),
}

/// The append-only record of what the engine did, in causal order.
pub struct EventLog {
    pub entries: Vec<Event>,
}

impl EventLog {
    pub fn new() -> (r: EventLog)
        ensures
            r.entries@ == Seq::<Event>::empty(),
    {
        EventLog { entries: Vec::new() }
    }

    /// Appends `e`; what was there before stays, in its order.
    pub fn append(&mut self, e: Event)
        ensures
            final(self).entries@ == old(self).entries@.push(e),
    {
        self.entries.push(e);
    }

    pub fn len(&self) -> (r: usize)
        ensures
            r == self.entries@.len(),
    {
        self.entries.len()
    }
}

} // verus!
