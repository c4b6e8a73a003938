use vstd::prelude::*;

verus! {

/// A 32-byte account identity, held as its high and low 16 bytes (big-endian).
#[derive(Clone, Copy, Debug, PartialEq, Eq, Structural)]
pub struct Pubkey {
    pub hi: u128,
    pub lo: u128,
}

impl Pubkey {
    pub fn new(hi: u128, lo: u128) -> (r: Pubkey)
        ensures
            r.hi == hi,
            r.lo == lo,
    {
        Pubkey { hi, lo }
    }
}

/// Who may move funds out of a token account.
///
/// `Signer(k)` is an identity that signs for itself. `Escrow(c)` is the authority
/// derived from the option contract `c` (its key together with the fixed domain
/// "escrow"): no key can sign for it; only settlement of contract `c` acts for it.
#[derive(Clone, Copy, Debug, PartialEq, Eq, Structural)]
pub enum Authority {
    Signer(Pubkey),
    Escrow(Pubkey),
}

} // verus!
