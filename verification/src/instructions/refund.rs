use vstd::prelude::*;

use crate::error::ConstraintError;
use crate::instructions::constraints::{
    check_escrow_account, check_token_account, escrow_account_error, token_account_error,
};
use crate::state::{Address, Escrow, TokenAccount, TokenTransfer};

verus! {

/// The accounts of the refund instruction: the maker, who signs; mint A; the maker's
/// token account for mint A; the escrow; and the vault.
#[derive(Clone, Copy, Debug)]
pub struct Refund {
    pub maker: Address,
    pub maker_is_signer: bool,
    pub mint_a: Address,
    pub maker_ata_a: TokenAccount,
    pub escrow_address: Address,
    pub escrow: Escrow,
    pub vault: TokenAccount,
    pub token_program: Address,
    pub associated_token_program: Address,
}

/// What an accepted refund asks for: the vault returns all it holds to the maker, and
/// the vault and the escrow are closed with their rent going to `close_to`.
#[derive(Clone, Copy, Debug)]
pub struct RefundEffect {
    pub release: TokenTransfer,
    pub close_to: Address,
}

/// The first account constraint that the refund accounts break, if any.
pub open spec fn refund_constraint_error(accounts: Refund, program_id: Seq<u8>) -> Option<ConstraintError> {
    let tp = accounts.token_program;
    let atp = accounts.associated_token_program;
    if !accounts.maker_is_signer {
        Some(ConstraintError::AccountNotSigner)
    } else if token_account_error(accounts.maker_ata_a, accounts.maker, accounts.mint_a, tp, atp) is Some {
        token_account_error(accounts.maker_ata_a, accounts.maker, accounts.mint_a, tp, atp)
    } else if escrow_account_error(accounts.escrow_address, accounts.escrow, accounts.maker, program_id) is Some {
        escrow_account_error(accounts.escrow_address, accounts.escrow, accounts.maker, program_id)
    } else if accounts.escrow.mint_a@ != accounts.mint_a@ {
        Some(ConstraintError::ConstraintHasOne)
    } else {
        token_account_error(accounts.vault, accounts.escrow_address, accounts.mint_a, tp, atp)
    }
}

/// The return of everything the vault holds to the maker, signed by the escrow.
pub open spec fn release_to_maker(accounts: Refund) -> TokenTransfer {
    TokenTransfer {
        from: accounts.vault.address,
        to: accounts.maker_ata_a.address,
        authority: accounts.escrow_address,
        mint: accounts.mint_a,
        amount: accounts.vault.amount,
    }
}

impl Refund {
    /// Checks the account constraints of the refund instruction.
    pub fn validate(&self, program_id: &Address) -> (r: Result<(), ConstraintError>)
        ensures
            r == match refund_constraint_error(*self, program_id@) {
                Some(e) => Err(e),
                None => Ok(()),
            },
    {
        let tp = &self.token_program;
        let atp = &self.associated_token_program;
        if !self.maker_is_signer {
            return Err(ConstraintError::AccountNotSigner);
        }
        check_token_account(&self.maker_ata_a, &self.maker, &self.mint_a, tp, atp)?;
        check_escrow_account(&self.escrow_address, &self.escrow, &self.maker, program_id)?;
        if !self.escrow.mint_a.same(&self.mint_a) {
            return Err(ConstraintError::ConstraintHasOne);
        }
        check_token_account(&self.vault, &self.escrow_address, &self.mint_a, tp, atp)
    }

    /// The vault's return to the maker; the vault and the escrow then close to the maker.
    /// A refund is accepted whether or not the escrow has expired.
    pub fn refund_and_close_vault(&self) -> (r: RefundEffect)
        ensures
            r == (RefundEffect { release: release_to_maker(*self), close_to: self.maker }),
    {
        RefundEffect {
            release: TokenTransfer {
                from: self.vault.address,
                to: self.maker_ata_a.address,
                authority: self.escrow_address,
                mint: self.mint_a,
                amount: self.vault.amount,
            },
            close_to: self.maker,
        }
    }
}

} // verus!
