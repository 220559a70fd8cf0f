use vstd::prelude::*;

verus! {

/// Every way an operation of the ledger can fail.
///
/// An operation reports exactly one of these; there is no partial or
/// ambiguous outcome.
#[derive(Clone, Copy, Debug, PartialEq, Eq, Structural)]
pub enum ErrorCode {
    /// A wallet of the batch is already registered.
    UserAlreadyRegistered,
    /// Registration would exceed the participant limit.
    MaxUsersReached,
    /// The exemption registry is at capacity.
    MaxExemptedWallets,
    /// A token account could not be read or created.
    TokenAccountCreationFailed,
    /// A checked addition, subtraction, multiplication or division failed.
    ArithmeticOverflow,
    /// No participant record exists for the wallet.
    UserNotFound,
    /// The participant's settlement account is missing.
    UserWalletNotFound,
    /// The batch lacks a required reference.
    AccountNotEnough,
    /// A value transfer was refused.
    TokenTransferFailed,
    /// The recipient's balance is needed for the holding cap and was not given.
    RecipientBalanceUnavailable,
    /// The reported market cap does not clear the next tier.
    MilestoneNotReached,
    /// The caller is not the admin authority.
    Unauthorized,
    /// The burn sink is not an eligible wallet.
    InvalidBurnWallet,
    /// The marketing sink is not an eligible wallet.
    InvalidMarketingWallet,
    /// The treasury is not an eligible wallet.
    InvalidProjectWallet,
    /// Stored bytes could not be read back.
    DeserializationFailed,
    /// A record could not be written out.
    SerializationFailed,
    /// The reported market cap is zero or implausibly large.
    InvalidMarketCapValue,
    /// A reference needed to route a movement is absent.
    AccountNotFound,
    /// No liquidity pool has been configured.
    LiquidityPoolNotSet,
    /// Every tier has been passed already.
    MilestoneCompleted,
}

} // verus!
