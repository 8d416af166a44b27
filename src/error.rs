use vstd::prelude::*;

verus! {

/// The protocol's own failures.
#[derive(Clone, Copy, Debug, PartialEq, Eq, Structural)]
pub enum ErrorCode {
    /// The taker came before the waiting period ended.
    TooEarlyToTake,
    /// A token account holds another mint than the one expected.
    ConstraintTokenMint,
    /// A token account belongs to another owner than the one expected.
    ConstraintTokenOwner,
}

impl ErrorCode {
    pub fn message(&self) -> (r: &'static str)
        ensures
            *self == ErrorCode::TooEarlyToTake ==> r@ == "Tokens cannot be claimed yet"@,
            *self == ErrorCode::ConstraintTokenMint ==> r@ == "Invalid token mint provided"@,
            *self == ErrorCode::ConstraintTokenOwner ==> r@ == "Invalid token owner"@,
    {
        match self {
            ErrorCode::TooEarlyToTake => "Tokens cannot be claimed yet",
            ErrorCode::ConstraintTokenMint => "Invalid token mint provided",
            ErrorCode::ConstraintTokenOwner => "Invalid token owner",
        }
    }
}

/// Every way an operation on the ledger can fail. A failed operation leaves
/// the ledger as it was.
#[derive(Clone, Copy, Debug, PartialEq, Eq, Structural)]
pub enum EscrowError {
    /// One of the protocol's own checks failed.
    Program(ErrorCode),
    /// A named account does not exist (it was never created, or was closed).
    AccountNotFound,
    /// An account to be created exists already.
    AccountAlreadyInUse,
    /// The party that must sign did not, or is not a key holder.
    MissingRequiredSignature,
    /// The same account was named twice where each must be distinct.
    ConstraintDuplicateMutableAccount,
    /// The escrow record names another maker or mint than the one given.
    ConstraintHasOne,
    /// The escrow address does not derive from the record's seeds and bump.
    ConstraintSeeds,
    /// No bump seed gives an address for the escrow seeds.
    NoViableBump,
    /// The payer holds too little to fund the storage deposits.
    InsufficientLamports,
    /// A source account holds fewer tokens than the transfer moves.
    InsufficientFunds,
    /// A transfer between accounts of two different mints.
    MintMismatch,
    /// The authority given is not the owner of the source account.
    OwnerMismatch,
    /// An account to be closed still holds tokens.
    NonNativeHasBalance,
    /// A balance would exceed the largest amount.
    ArithmeticOverflow,
    /// Stored data too short to hold the record's tag.
    AccountDiscriminatorNotFound,
    /// Stored data whose tag is not the escrow record's.
    AccountDiscriminatorMismatch,
    /// Stored data too short to hold the record's fields.
    AccountDidNotDeserialize,
}

} // verus!
