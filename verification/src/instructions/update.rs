use vstd::prelude::*;

use crate::error::{ConstraintError, EscrowError};
use crate::instructions::constraints::{check_escrow_account, escrow_account_error};
use crate::state::{Address, Escrow};

verus! {

/// The accounts of the update instruction: the maker, who must sign, and the
/// escrow, held at its program-derived address.
#[derive(Clone, Copy, Debug)]
pub struct Update {
    pub maker: Address,
    pub maker_is_signer: bool,
    pub escrow_address: Address,
    pub escrow: Escrow,
}

/// The first account constraint that the update accounts break, if any: the maker
/// signs, the escrow sits at the address of its seeds under the program, and the
/// escrow names the maker.
pub open spec fn update_constraint_error(accounts: Update, program_id: Seq<u8>) -> Option<ConstraintError> {
    if !accounts.maker_is_signer {
        Some(ConstraintError::AccountNotSigner)
    } else {
        escrow_account_error(accounts.escrow_address, accounts.escrow, accounts.maker, program_id)
    }
}

/// Why an update of `escrow` at time `now` is refused, if it is: the escrow has
/// expired, a new receive amount is zero, or the new expiration is earlier than the
/// old one (it may keep it as it is, never shorten it).
pub open spec fn update_error(escrow: Escrow, receive: Option<u64>, expiration: i64, now: i64) -> Option<EscrowError> {
    if escrow.expiration <= now {
        Some(EscrowError::EscrowExpired)
    } else if receive matches Some(r) && r == 0 {
        Some(EscrowError::InvalidReceiveAmount)
    } else if expiration < escrow.expiration {
        Some(EscrowError::InvalidExpiration)
    } else {
        None
    }
}

/// The escrow after an accepted update: the new receive amount where one is given,
/// the new expiration, everything else as it was.
pub open spec fn updated_escrow(escrow: Escrow, receive: Option<u64>, expiration: i64) -> Escrow {
    Escrow {
        receive: match receive {
            Some(r) => r,
            None => escrow.receive,
        },
        expiration: expiration,
        ..escrow
    }
}

impl Update {
    /// Checks the account constraints of the update instruction.
    pub fn validate(&self, program_id: &Address) -> (r: Result<(), ConstraintError>)
        ensures
            r == match update_constraint_error(*self, program_id@) {
                Some(e) => Err(e),
                None => Ok(()),
            },
    {
        if !self.maker_is_signer {
            return Err(ConstraintError::AccountNotSigner);
        }
        check_escrow_account(&self.escrow_address, &self.escrow, &self.maker, program_id)
    }

    /// Changes the amount of token B the maker asks for and sets the escrow's
    /// expiration, at time `now`. A refused update leaves the escrow as it was.
    pub fn update(&mut self, receive: Option<u64>, expiration: i64, now: i64) -> (r: Result<(), EscrowError>)
        ensures
            r == match update_error(old(self).escrow, receive, expiration, now) {
                Some(e) => Err(e),
                None => Ok(()),
            },
            *final(self) == (Update {
                escrow: if r is Ok {
                    updated_escrow(old(self).escrow, receive, expiration)
                } else {
                    old(self).escrow
                },
                ..*old(self)
            }),
    {
        if self.escrow.expiration <= now {
            return Err(EscrowError::EscrowExpired);
        }
        if let Some(r) = receive {
            if r == 0 {
                return Err(EscrowError::InvalidReceiveAmount);
            }
        }
        if expiration < self.escrow.expiration {
            return Err(EscrowError::InvalidExpiration);
        }
        if let Some(r) = receive {
            self.escrow.receive = r;
        }
        self.escrow.expiration = expiration;
        Ok(())
    }
}

} // verus!
