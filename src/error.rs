use vstd::prelude::*;

verus! {

/// Every way in which an operation of this library fails. No operation that
/// fails leaves a change behind.
#[derive(Clone, Copy, Debug, PartialEq, Eq, Structural)]
pub enum CustomError {
    /// Malformed inputs: a zero strike price or premium, an expiry that is not in
    /// the future.
    InvalidParameters,
    /// A deposit of nothing.
    InvalidAmount,
    /// The paying account holds less than the amount.
    InsufficientFunds,
    /// No contract under the given id.
    NotFound,
    /// Settlement attempted before expiry.
    OptionNotExpired,
    /// Settlement attempted on a contract that is already settled.
    AlreadySettled,
    /// The authority offered does not own the account, or an account is not
    /// the one that the contract names.
    UnauthorizedAccess,
    /// The price feed holds fewer than eight bytes.
    OracleUnavailable,
    /// A balance would exceed the largest amount that an account can hold.
    Overflow,
}

} // verus!
