use vstd::prelude::*;

verus! {

/// Why an operation was refused. Every refusal aborts the whole operation.
#[derive(Clone, Copy, Debug, PartialEq, Eq, Structural)]
pub enum AppError {
    /// The payload is not a well-formed operation.
    InvalidInstructionData,
    /// Fewer accounts were supplied than the operation expects.
    NotEnoughAccountKeys,
    /// A record slot has the wrong length or does not decode.
    InvalidAccountData,
    /// A record slot is not owned by this program.
    IllegalOwner,
    /// A supplied address differs from the one derived from its seeds.
    InvalidSeeds,
    /// A pinned service identity was substituted.
    IncorrectProgramId,
    /// An account that must sign did not.
    MissingRequiredSignature,
    /// The signer is not the admin or creator that the record names.
    InvalidAuthority,
    /// The supplied treasury account is not the promotion's.
    InvalidTreasury,
    /// The promotion's public sale has not started.
    SaleNotOpen,
    /// The collection has reached its supply ceiling.
    SoldOut,
    /// The creator list exceeds its capacity.
    TooManyCreators,
    /// The record does not fit its fixed-length slot.
    AccountDataTooSmall,
    /// A counter would overflow.
    ArithmeticOverflow,
}

} // verus!
