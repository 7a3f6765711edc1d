use vstd::prelude::*;

verus! {

/// The program's own errors.
#[derive(Clone, Copy, Debug, PartialEq, Eq, Structural)]
pub enum EscrowError {
    /// The escrow has expired.
    EscrowExpired,
    /// Deposit amount must be greater than zero.
    InvalidDepositAmount,
    /// Receive amount must be greater than zero.
    InvalidReceiveAmount,
    /// Expiration must be in the future and can only be extended.
    InvalidExpiration,
}

impl EscrowError {
    /// The message the program reports for the error.
    pub fn message(&self) -> (s: &'static str)
        ensures
            s@ == match self {
                EscrowError::EscrowExpired => "The escrow has expired"@,
                EscrowError::InvalidDepositAmount => "Deposit amount must be greater than zero"@,
                EscrowError::InvalidReceiveAmount => "Receive amount must be greater than zero"@,
                EscrowError::InvalidExpiration => "Expiration must be in the future and can only be extended"@,
            },
    {
        match self {
            EscrowError::EscrowExpired => "The escrow has expired",
            EscrowError::InvalidDepositAmount => "Deposit amount must be greater than zero",
            EscrowError::InvalidReceiveAmount => "Receive amount must be greater than zero",
            EscrowError::InvalidExpiration => "Expiration must be in the future and can only be extended",
        }
    }
}

/// A violated account constraint, checked before an instruction's handler runs.
#[derive(Clone, Copy, Debug, PartialEq, Eq, Structural)]
pub enum ConstraintError {
    /// An account that must sign the transaction did not.
    AccountNotSigner,
    /// An account's address is not the program address derived from its seeds.
    ConstraintSeeds,
    /// A field of the escrow does not name the account passed for it.
    ConstraintHasOne,
    /// A token account is not owned by the wallet it must belong to.
    ConstraintTokenOwner,
    /// A token account's address is not the associated token address of its wallet and mint.
    ConstraintAssociated,
    /// The escrow account to be created is already in use.
    AccountAlreadyInUse,
    /// No bump seed gives a program address for the escrow's seeds.
    BumpSeedNotFound,
}

/// Why an instruction failed.
#[derive(Clone, Copy, Debug, PartialEq, Eq, Structural)]
pub enum Failure {
    Constraint(ConstraintError),
    Escrow(EscrowError),
}

} // verus!
