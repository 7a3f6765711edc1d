use vstd::prelude::*;

use crate::error::{ConstraintError, EscrowError};
use crate::instructions::constraints::{
    associated_address_error, check_associated_address, check_token_account, token_account_error,
};
use crate::pda::{escrow_seeds, find_escrow_address, found_program_address, is_canonical_escrow_bump, is_escrow_address};
use crate::state::{Address, Escrow, TokenAccount, TokenTransfer};

verus! {

/// The accounts of the make instruction: the maker, who signs; the two mints; the
/// maker's token account for mint A; the escrow account to create at its program
/// address; and the vault, the escrow's associated token account for mint A.
#[derive(Clone, Copy, Debug)]
pub struct Make {
    pub maker: Address,
    pub maker_is_signer: bool,
    pub mint_a: Address,
    pub mint_b: Address,
    pub maker_ata_a: TokenAccount,
    pub escrow_address: Address,
    pub escrow_in_use: bool,
    pub vault: Address,
    pub token_program: Address,
    pub associated_token_program: Address,
}

/// What an accepted make asks for: the escrow account's data, and the transfer of the
/// deposit from the maker's token account into the vault.
#[derive(Clone, Copy, Debug)]
pub struct MakeEffect {
    pub escrow: Escrow,
    pub deposit: TokenTransfer,
}

/// The first account constraint that the make accounts break for escrow seed `seed`,
/// if any. The escrow's address must be the one the bump search finds for its seeds.
pub open spec fn make_constraint_error(accounts: Make, seed: u64, program_id: Seq<u8>) -> Option<ConstraintError> {
    let found = found_program_address(escrow_seeds(accounts.maker@, seed), program_id);
    if !accounts.maker_is_signer {
        Some(ConstraintError::AccountNotSigner)
    } else if token_account_error(
        accounts.maker_ata_a,
        accounts.maker,
        accounts.mint_a,
        accounts.token_program,
        accounts.associated_token_program,
    ) is Some {
        token_account_error(
            accounts.maker_ata_a,
            accounts.maker,
            accounts.mint_a,
            accounts.token_program,
            accounts.associated_token_program,
        )
    } else if found is None {
        Some(ConstraintError::BumpSeedNotFound)
    } else if found.unwrap().0 != accounts.escrow_address@ {
        Some(ConstraintError::ConstraintSeeds)
    } else if accounts.escrow_in_use {
        Some(ConstraintError::AccountAlreadyInUse)
    } else {
        associated_address_error(
            accounts.vault,
            accounts.escrow_address,
            accounts.mint_a,
            accounts.token_program,
            accounts.associated_token_program,
        )
    }
}

/// The bump seed of the escrow address that make creates.
pub open spec fn make_bump(accounts: Make, seed: u64, program_id: Seq<u8>) -> u8 {
    found_program_address(escrow_seeds(accounts.maker@, seed), program_id).unwrap().1
}

/// Why the escrow's terms are refused, if they are: nothing asked in return, or an
/// expiration that is not in the future.
pub open spec fn init_escrow_error(receive: u64, expiration: i64, now: i64) -> Option<EscrowError> {
    if receive == 0 {
        Some(EscrowError::InvalidReceiveAmount)
    } else if expiration <= now {
        Some(EscrowError::InvalidExpiration)
    } else {
        None
    }
}

/// The escrow that make records.
pub open spec fn new_escrow(accounts: Make, seed: u64, receive: u64, expiration: i64, bump: u8) -> Escrow {
    Escrow {
        seed: seed,
        maker: accounts.maker,
        mint_a: accounts.mint_a,
        mint_b: accounts.mint_b,
        receive: receive,
        expiration: expiration,
        bump: bump,
    }
}

/// The transfer of the deposit from the maker into the vault.
pub open spec fn deposit_transfer(accounts: Make, deposit: u64) -> TokenTransfer {
    TokenTransfer {
        from: accounts.maker_ata_a.address,
        to: accounts.vault,
        authority: accounts.maker,
        mint: accounts.mint_a,
        amount: deposit,
    }
}

impl Make {
    /// Checks the account constraints of the make instruction and gives the bump seed
    /// of the escrow's address.
    pub fn validate(&self, seed: u64, program_id: &Address) -> (r: Result<u8, ConstraintError>)
        ensures
            r == match make_constraint_error(*self, seed, program_id@) {
                Some(e) => Err(e),
                None => Ok(make_bump(*self, seed, program_id@)),
            },
            r matches Ok(bump) ==> is_escrow_address(self.escrow_address@, self.maker@, seed, bump, program_id@),
            r matches Ok(bump) ==> is_canonical_escrow_bump(self.maker@, seed, bump, program_id@),
    {
        if !self.maker_is_signer {
            return Err(ConstraintError::AccountNotSigner);
        }
        check_token_account(
            &self.maker_ata_a,
            &self.maker,
            &self.mint_a,
            &self.token_program,
            &self.associated_token_program,
        )?;
        let bump = match find_escrow_address(&self.maker, seed, program_id) {
            None => {
                return Err(ConstraintError::BumpSeedNotFound);
            },
            Some(found) => {
                if !found.0.same(&self.escrow_address) {
                    return Err(ConstraintError::ConstraintSeeds);
                }
                found.1
            },
        };
        if self.escrow_in_use {
            return Err(ConstraintError::AccountAlreadyInUse);
        }
        check_associated_address(
            &self.vault,
            &self.escrow_address,
            &self.mint_a,
            &self.token_program,
            &self.associated_token_program,
        )?;
        Ok(bump)
    }

    /// Records the escrow's terms, at time `now`.
    pub fn init_escrow(&self, seed: u64, receive: u64, bump: u8, expiration: i64, now: i64) -> (r: Result<Escrow, EscrowError>)
        ensures
            r == match init_escrow_error(receive, expiration, now) {
                Some(e) => Err(e),
                None => Ok(new_escrow(*self, seed, receive, expiration, bump)),
            },
    {
        if receive == 0 {
            return Err(EscrowError::InvalidReceiveAmount);
        }
        if expiration <= now {
            return Err(EscrowError::InvalidExpiration);
        }
        Ok(Escrow {
            seed,
            maker: self.maker,
            mint_a: self.mint_a,
            mint_b: self.mint_b,
            receive,
            expiration,
            bump,
        })
    }

    /// The transfer that moves the deposit into the vault; a zero deposit is refused.
    pub fn deposit(&self, deposit: u64) -> (r: Result<TokenTransfer, EscrowError>)
        ensures
            r == if deposit == 0 {
                Err(EscrowError::InvalidDepositAmount)
            } else {
                Ok(deposit_transfer(*self, deposit))
            },
    {
        if deposit == 0 {
            return Err(EscrowError::InvalidDepositAmount);
        }
        Ok(TokenTransfer {
            from: self.maker_ata_a.address,
            to: self.vault,
            authority: self.maker,
            mint: self.mint_a,
            amount: deposit,
        })
    }
}

} // verus!
