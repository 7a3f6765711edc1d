use vstd::prelude::*;

use crate::error::{ConstraintError, EscrowError};
use crate::instructions::constraints::{
    associated_address_error, check_associated_address, check_escrow_account, check_token_account,
    escrow_account_error, token_account_error,
};
use crate::state::{Address, Escrow, TokenAccount, TokenTransfer};

verus! {

/// The accounts of the take instruction: the taker, who signs; the maker; the two
/// mints; the maker's associated token account for mint B and the taker's for mint A
/// (created where missing); the taker's token account for mint B; the escrow; and the
/// vault.
#[derive(Clone, Copy, Debug)]
pub struct Take {
    pub taker: Address,
    pub taker_is_signer: bool,
    pub maker: Address,
    pub mint_a: Address,
    pub mint_b: Address,
    pub maker_ata_b: Address,
    pub taker_ata_a: Address,
    pub taker_ata_b: TokenAccount,
    pub escrow_address: Address,
    pub escrow: Escrow,
    pub vault: TokenAccount,
    pub token_program: Address,
    pub associated_token_program: Address,
}

/// What an accepted take asks for: the taker pays the maker in token B, the vault
/// releases all it holds of token A to the taker, and the vault and the escrow are
/// closed with their rent going to `close_to`.
#[derive(Clone, Copy, Debug)]
pub struct TakeEffect {
    pub payment: TokenTransfer,
    pub release: TokenTransfer,
    pub close_to: Address,
}

/// The first account constraint that the take accounts break, if any.
pub open spec fn take_constraint_error(accounts: Take, program_id: Seq<u8>) -> Option<ConstraintError> {
    let tp = accounts.token_program;
    let atp = accounts.associated_token_program;
    if !accounts.taker_is_signer {
        Some(ConstraintError::AccountNotSigner)
    } else if associated_address_error(accounts.maker_ata_b, accounts.maker, accounts.mint_b, tp, atp) is Some {
        associated_address_error(accounts.maker_ata_b, accounts.maker, accounts.mint_b, tp, atp)
    } else if associated_address_error(accounts.taker_ata_a, accounts.taker, accounts.mint_a, tp, atp) is Some {
        associated_address_error(accounts.taker_ata_a, accounts.taker, accounts.mint_a, tp, atp)
    } else if token_account_error(accounts.taker_ata_b, accounts.taker, accounts.mint_b, tp, atp) is Some {
        token_account_error(accounts.taker_ata_b, accounts.taker, accounts.mint_b, tp, atp)
    } else if escrow_account_error(accounts.escrow_address, accounts.escrow, accounts.maker, program_id) is Some {
        escrow_account_error(accounts.escrow_address, accounts.escrow, accounts.maker, program_id)
    } else if accounts.escrow.mint_a@ != accounts.mint_a@ || accounts.escrow.mint_b@ != accounts.mint_b@ {
        Some(ConstraintError::ConstraintHasOne)
    } else {
        token_account_error(accounts.vault, accounts.escrow_address, accounts.mint_a, tp, atp)
    }
}

/// The payment in token B from the taker to the maker, of the amount the escrow asks.
pub open spec fn payment_transfer(accounts: Take) -> TokenTransfer {
    TokenTransfer {
        from: accounts.taker_ata_b.address,
        to: accounts.maker_ata_b,
        authority: accounts.taker,
        mint: accounts.mint_b,
        amount: accounts.escrow.receive,
    }
}

/// The release of everything the vault holds to the taker, signed by the escrow.
pub open spec fn release_to_taker(accounts: Take) -> TokenTransfer {
    TokenTransfer {
        from: accounts.vault.address,
        to: accounts.taker_ata_a,
        authority: accounts.escrow_address,
        mint: accounts.mint_a,
        amount: accounts.vault.amount,
    }
}

impl Take {
    /// Checks the account constraints of the take instruction.
    pub fn validate(&self, program_id: &Address) -> (r: Result<(), ConstraintError>)
        ensures
            r == match take_constraint_error(*self, program_id@) {
                Some(e) => Err(e),
                None => Ok(()),
            },
    {
        let tp = &self.token_program;
        let atp = &self.associated_token_program;
        if !self.taker_is_signer {
            return Err(ConstraintError::AccountNotSigner);
        }
        check_associated_address(&self.maker_ata_b, &self.maker, &self.mint_b, tp, atp)?;
        check_associated_address(&self.taker_ata_a, &self.taker, &self.mint_a, tp, atp)?;
        check_token_account(&self.taker_ata_b, &self.taker, &self.mint_b, tp, atp)?;
        check_escrow_account(&self.escrow_address, &self.escrow, &self.maker, program_id)?;
        if !self.escrow.mint_a.same(&self.mint_a) || !self.escrow.mint_b.same(&self.mint_b) {
            return Err(ConstraintError::ConstraintHasOne);
        }
        check_token_account(&self.vault, &self.escrow_address, &self.mint_a, tp, atp)
    }

    /// The taker's payment to the maker, refused once the escrow has expired at `now`.
    pub fn transfer(&self, now: i64) -> (r: Result<TokenTransfer, EscrowError>)
        ensures
            r == if self.escrow.expiration <= now {
                Err(EscrowError::EscrowExpired)
            } else {
                Ok(payment_transfer(*self))
            },
    {
        if self.escrow.expiration <= now {
            return Err(EscrowError::EscrowExpired);
        }
        Ok(TokenTransfer {
            from: self.taker_ata_b.address,
            to: self.maker_ata_b,
            authority: self.taker,
            mint: self.mint_b,
            amount: self.escrow.receive,
        })
    }

    /// The vault's release to the taker; the vault and the escrow then close to the maker.
    pub fn transfer_and_close(&self) -> (r: (TokenTransfer, Address))
        ensures
            r == (release_to_taker(*self), self.maker),
    {
        (
            TokenTransfer {
                from: self.vault.address,
                to: self.taker_ata_a,
                authority: self.escrow_address,
                mint: self.mint_a,
                amount: self.vault.amount,
            },
            self.maker,
        )
    }
}

} // verus!
