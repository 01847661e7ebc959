use vstd::prelude::*;

verus! {

/// Every way an operation of the ledger can fail. An operation that fails
/// leaves every account it was handed as it found it.
#[derive(Debug, Clone, Copy, PartialEq, Eq, Structural)]
pub enum EnergyError {
    /// A quantity that must be positive was zero.
    InvalidAmount,
    /// The order is no longer fillable (filled or cancelled).
    InactiveOrder,
    /// The fill quantity exceeds what the order still offers.
    InsufficientOrderAmount,
    /// A price times quantity, or a balance, left the range of `u64`.
    MathOverflow,
    /// An account or signer does not match the authority the operation needs.
    Unauthorized,
    /// A balance is too small for the transfer or burn asked of it.
    InsufficientFunds,
    /// No program-derived address exists for the given seeds.
    InvalidSeeds,
    /// An account that the operation would create already exists.
    AccountInUse,
    /// An account that the operation reads does not exist.
    MissingAccount,
}

impl EnergyError {
    /// The message that goes with each error.
    pub fn message(&self) -> (r: &'static str) {
        match self {
            EnergyError::InvalidAmount => "Amount must be > 0",
            EnergyError::InactiveOrder => "Order is not active",
            EnergyError::InsufficientOrderAmount => "Insufficient order amount",
            EnergyError::MathOverflow => "Arithmetic overflow",
            EnergyError::Unauthorized => "Unauthorized",
            EnergyError::InsufficientFunds => "Insufficient funds",
            EnergyError::InvalidSeeds => "No valid program address for these seeds",
            EnergyError::AccountInUse => "Account already in use",
            EnergyError::MissingAccount => "Account does not exist",
        }
    }
}

} // verus!
