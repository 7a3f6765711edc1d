//! A two-party token escrow: a maker locks an amount of token A in a vault owned by
//! a program-derived escrow account and names the amount of token B wanted in return.
//! Any taker holding token B can complete the swap before the escrow expires; the
//! maker can take the deposit back at any time.
//!
//! The crate holds the program's decisions as verified functions over plain values:
//! the account constraints, the instruction handlers, and the token movements each
//! handler asks the token program to perform.

pub mod error;
pub mod instructions;
pub mod laws;
pub mod pda;
pub mod state;

pub use error::{ConstraintError, EscrowError, Failure};
pub use instructions::make::{Make, MakeEffect};
pub use instructions::refund::{Refund, RefundEffect};
pub use instructions::take::{Take, TakeEffect};
pub use instructions::update::Update;
pub use state::{Address, Escrow, TokenAccount, TokenTransfer};

use vstd::prelude::*;

use crate::instructions::make::{deposit_transfer, init_escrow_error, make_bump, make_constraint_error, new_escrow};
use crate::instructions::refund::{refund_constraint_error, release_to_maker};
use crate::instructions::take::{payment_transfer, release_to_taker, take_constraint_error};
use crate::instructions::update::{update_constraint_error, update_error, updated_escrow};
use crate::instructions::constraints::escrow_account_error;
use crate::pda::{is_canonical_escrow_bump, is_escrow_address};

verus! {

/// The program an instruction runs under and the accounts handed to it.
#[derive(Clone, Copy, Debug)]
pub struct Context<T> {
    pub program_id: Address,
    pub accounts: T,
}

/// The outcome of make: the constraint errors first, then the escrow's terms, then
/// the deposit.
pub open spec fn make_result(
    ctx: Context<Make>,
    seed: u64,
    deposit: u64,
    receive: u64,
    expiration: i64,
    now: i64,
) -> Result<MakeEffect, Failure> {
    match make_constraint_error(ctx.accounts, seed, ctx.program_id@) {
        Some(e) => Err(Failure::Constraint(e)),
        None => match init_escrow_error(receive, expiration, now) {
            Some(e) => Err(Failure::Escrow(e)),
            None => if deposit == 0 {
                Err(Failure::Escrow(EscrowError::InvalidDepositAmount))
            } else {
                Ok(
                    MakeEffect {
                        escrow: new_escrow(
                            ctx.accounts,
                            seed,
                            receive,
                            expiration,
                            make_bump(ctx.accounts, seed, ctx.program_id@),
                        ),
                        deposit: deposit_transfer(ctx.accounts, deposit),
                    },
                )
            },
        },
    }
}

/// The outcome of take: the constraint errors first, then expiry.
pub open spec fn take_result(ctx: Context<Take>, now: i64) -> Result<TakeEffect, Failure> {
    match take_constraint_error(ctx.accounts, ctx.program_id@) {
        Some(e) => Err(Failure::Constraint(e)),
        None => if ctx.accounts.escrow.expiration <= now {
            Err(Failure::Escrow(EscrowError::EscrowExpired))
        } else {
            Ok(
                TakeEffect {
                    payment: payment_transfer(ctx.accounts),
                    release: release_to_taker(ctx.accounts),
                    close_to: ctx.accounts.maker,
                },
            )
        },
    }
}

/// The outcome of refund: only the constraints can refuse it.
pub open spec fn refund_result(ctx: Context<Refund>) -> Result<RefundEffect, Failure> {
    match refund_constraint_error(ctx.accounts, ctx.program_id@) {
        Some(e) => Err(Failure::Constraint(e)),
        None => Ok(RefundEffect { release: release_to_maker(ctx.accounts), close_to: ctx.accounts.maker }),
    }
}

/// The outcome of update: the escrow as it is afterwards, or why it was refused.
pub open spec fn update_result(ctx: Context<Update>, receive: Option<u64>, expiration: i64, now: i64) -> Result<Escrow, Failure> {
    match update_constraint_error(ctx.accounts, ctx.program_id@) {
        Some(e) => Err(Failure::Constraint(e)),
        None => match update_error(ctx.accounts.escrow, receive, expiration, now) {
            Some(e) => Err(Failure::Escrow(e)),
            None => Ok(updated_escrow(ctx.accounts.escrow, receive, expiration)),
        },
    }
}

/// Opens an escrow: checks the accounts, records the escrow's terms and asks for the
/// deposit to move into the vault. `now` is the cluster's Unix time.
pub fn make(ctx: &Context<Make>, seed: u64, deposit: u64, receive: u64, expiration: i64, now: i64) -> (r: Result<MakeEffect, Failure>)
    ensures
        r == make_result(*ctx, seed, deposit, receive, expiration, now),
        r matches Ok(effect) ==> is_escrow_address(
            ctx.accounts.escrow_address@,
            ctx.accounts.maker@,
            seed,
            effect.escrow.bump,
            ctx.program_id@,
        ),
        r matches Ok(effect) ==> is_canonical_escrow_bump(
            ctx.accounts.maker@,
            seed,
            effect.escrow.bump,
            ctx.program_id@,
        ),
        r matches Ok(effect) ==> escrow_account_error(
            ctx.accounts.escrow_address,
            effect.escrow,
            ctx.accounts.maker,
            ctx.program_id@,
        ) is None,
{
    let bump = match ctx.accounts.validate(seed, &ctx.program_id) {
        Ok(b) => b,
        Err(e) => {
            return Err(Failure::Constraint(e));
        },
    };
    let escrow = match ctx.accounts.init_escrow(seed, receive, bump, expiration, now) {
        Ok(e) => e,
        Err(e) => {
            return Err(Failure::Escrow(e));
        },
    };
    match ctx.accounts.deposit(deposit) {
        Ok(t) => Ok(MakeEffect { escrow, deposit: t }),
        Err(e) => Err(Failure::Escrow(e)),
    }
}

/// Gives the maker the deposit back and closes the escrow and its vault.
pub fn refund(ctx: &Context<Refund>) -> (r: Result<RefundEffect, Failure>)
    ensures
        r == refund_result(*ctx),
{
    match ctx.accounts.validate(&ctx.program_id) {
        Ok(()) => Ok(ctx.accounts.refund_and_close_vault()),
        Err(e) => Err(Failure::Constraint(e)),
    }
}

/// Completes the swap: the taker pays the maker in token B and receives the vault's
/// token A; the escrow and the vault close. `now` is the cluster's Unix time.
pub fn take(ctx: &Context<Take>, now: i64) -> (r: Result<TakeEffect, Failure>)
    ensures
        r == take_result(*ctx, now),
{
    if let Err(e) = ctx.accounts.validate(&ctx.program_id) {
        return Err(Failure::Constraint(e));
    }
    let payment = match ctx.accounts.transfer(now) {
        Ok(t) => t,
        Err(e) => {
            return Err(Failure::Escrow(e));
        },
    };
    let (release, close_to) = ctx.accounts.transfer_and_close();
    Ok(TakeEffect { payment, release, close_to })
}

/// Changes the price and sets a later or equal expiration of an escrow. `now` is the cluster's
/// Unix time. A refused update leaves the accounts as they were.
pub fn update(ctx: &mut Context<Update>, receive: Option<u64>, expiration: i64, now: i64) -> (r: Result<(), Failure>)
    ensures
        match update_result(*old(ctx), receive, expiration, now) {
            Ok(escrow) => r is Ok && *final(ctx) == (Context {
                accounts: Update { escrow: escrow, ..old(ctx).accounts },
                ..*old(ctx)
            }),
            Err(f) => r == Err::<(), Failure>(f) && *final(ctx) == *old(ctx),
        },
{
    if let Err(e) = ctx.accounts.validate(&ctx.program_id) {
        return Err(Failure::Constraint(e));
    }
    match ctx.accounts.update(receive, expiration, now) {
        Ok(()) => Ok(()),
        Err(e) => Err(Failure::Escrow(e)),
    }
}

} // verus!
