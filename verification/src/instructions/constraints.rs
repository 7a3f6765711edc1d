use vstd::prelude::*;

use crate::error::ConstraintError;
use crate::pda::{check_associated_token_address, check_escrow_address, is_associated_token_address, is_escrow_address};
use crate::state::{Address, Escrow, TokenAccount};

verus! {

/// The constraint that an account at `address`, meant to be the associated token
/// account of `wallet` for `mint`, breaks, if any.
pub open spec fn associated_address_error(
    address: Address,
    wallet: Address,
    mint: Address,
    token_program: Address,
    associated_token_program: Address,
) -> Option<ConstraintError> {
    if is_associated_token_address(address@, wallet@, mint@, token_program@, associated_token_program@) {
        None
    } else {
        Some(ConstraintError::ConstraintAssociated)
    }
}

/// The constraint that a token account, meant to be the associated token account of
/// `wallet` for `mint`, breaks, if any: first its owner, then its address.
pub open spec fn token_account_error(
    account: TokenAccount,
    wallet: Address,
    mint: Address,
    token_program: Address,
    associated_token_program: Address,
) -> Option<ConstraintError> {
    if account.owner@ != wallet@ {
        Some(ConstraintError::ConstraintTokenOwner)
    } else {
        associated_address_error(account.address, wallet, mint, token_program, associated_token_program)
    }
}

/// The constraint that an existing escrow account breaks, if any: it must sit at the
/// address of its seeds (taken with the maker account passed in) and its stored bump
/// seed, and it must name the maker.
pub open spec fn escrow_account_error(
    address: Address,
    escrow: Escrow,
    maker: Address,
    program_id: Seq<u8>,
) -> Option<ConstraintError> {
    if !is_escrow_address(address@, maker@, escrow.seed, escrow.bump, program_id) {
        Some(ConstraintError::ConstraintSeeds)
    } else if escrow.maker@ != maker@ {
        Some(ConstraintError::ConstraintHasOne)
    } else {
        None
    }
}

/// Checks that `address` is the associated token address of `wallet` for `mint`.
pub fn check_associated_address(
    address: &Address,
    wallet: &Address,
    mint: &Address,
    token_program: &Address,
    associated_token_program: &Address,
) -> (r: Result<(), ConstraintError>)
    ensures
        r == match associated_address_error(*address, *wallet, *mint, *token_program, *associated_token_program) {
            Some(e) => Err(e),
            None => Ok(()),
        },
{
    if check_associated_token_address(address, wallet, mint, token_program, associated_token_program) {
        Ok(())
    } else {
        Err(ConstraintError::ConstraintAssociated)
    }
}

/// Checks that a token account is the associated token account of `wallet` for `mint`.
pub fn check_token_account(
    account: &TokenAccount,
    wallet: &Address,
    mint: &Address,
    token_program: &Address,
    associated_token_program: &Address,
) -> (r: Result<(), ConstraintError>)
    ensures
        r == match token_account_error(*account, *wallet, *mint, *token_program, *associated_token_program) {
            Some(e) => Err(e),
            None => Ok(()),
        },
{
    if !account.owner.same(wallet) {
        return Err(ConstraintError::ConstraintTokenOwner);
    }
    check_associated_address(&account.address, wallet, mint, token_program, associated_token_program)
}

/// Checks an existing escrow account against its seeds and its maker.
pub fn check_escrow_account(
    address: &Address,
    escrow: &Escrow,
    maker: &Address,
    program_id: &Address,
) -> (r: Result<(), ConstraintError>)
    ensures
        r == match escrow_account_error(*address, *escrow, *maker, program_id@) {
            Some(e) => Err(e),
            None => Ok(()),
        },
{
    if !check_escrow_address(address, maker, escrow.seed, escrow.bump, program_id) {
        return Err(ConstraintError::ConstraintSeeds);
    }
    if !escrow.maker.same(maker) {
        return Err(ConstraintError::ConstraintHasOne);
    }
    Ok(())
}

} // verus!
