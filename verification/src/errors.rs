use vstd::prelude::*;

verus! {

/// The failure kinds the escrow protocol reports.
///
/// Every operation validates before it mutates anything, so an error always
/// leaves every account and record exactly as it was.
#[derive(Clone, Copy, Debug, PartialEq, Eq, Structural)]
pub enum ErrorKind {
    /// A parameter is outside its allowed range (fee rate above the bound,
    /// name too long), or a required derived address could not be produced
    /// while setting up the root configuration.
    ConfigurationError,
    /// The signer or a supplied account does not match what the record
    /// requires, or the derived move-authority does not match the stored
    /// nonce. A settlement aimed at a record that does not exist also fails
    /// here: without a record there is no stored nonce to authenticate
    /// against.
    AuthorizationError,
    /// Checked arithmetic failed: the fee exceeds the price, a balance is
    /// insufficient, or a transfer would overflow the receiving account.
    ArithmeticError,
    /// The slot is already taken: a live offer already exists for the asset.
    CapacityError,
    /// A custody account does not hold what the paired record requires.
    /// Unreachable in any state this library constructs; checked anyway.
    ConsistencyError,
}

/// Failures of root-configuration maintenance for the session program.
#[derive(Clone, Copy, Debug, PartialEq, Eq, Structural)]
pub enum ConfigErrors {
    InvalidFeeRange,
    NotAuthorized,
    InvalidMintsRange,
}

/// Failures of session creation and joining.
#[derive(Clone, Copy, Debug, PartialEq, Eq, Structural)]
pub enum GameErrors {
    InvalidEntryStake,
    InvalidMint,
    InsufficientFunds,
    InvalidWaitTimeRange,
    InvalidNoPlayers,
    PlayersAlreadyComplete,
}

/// Failures of profile creation.
#[derive(Clone, Copy, Debug, PartialEq, Eq, Structural)]
pub enum ProfileErrors {
    InvalidUsername,
}

} // verus!
