use vstd::prelude::*;

use crate::error::{EscrowError, Failure};
use crate::instructions::make::Make;
use crate::instructions::refund::Refund;
use crate::instructions::take::Take;
use crate::instructions::update::Update;
use crate::pda::{escrow_seeds, found_program_address, is_associated_token_address, is_escrow_address};
use crate::state::{Escrow, TokenTransfer};
use crate::{MakeEffect, RefundEffect, TakeEffect};
use crate::{make_result, refund_result, take_result, update_result, Context};

verus! {

/// Balances by token account address after the token program performs transfer `t`:
/// the source loses the amount and the destination gains it; a transfer from an
/// account to itself changes nothing.
pub open spec fn apply_transfer(balances: Map<Seq<u8>, int>, t: TokenTransfer) -> Map<Seq<u8>, int> {
    if t.from@ == t.to@ {
        balances
    } else {
        balances.insert(t.from@, balances[t.from@] - t.amount).insert(t.to@, balances[t.to@] + t.amount)
    }
}

/// An accepted update never shortens the expiration, keeps it in the future, never sets
/// the price to zero, and leaves the escrow's seed, maker, mints and bump alone.
pub proof fn update_never_shortens(ctx: Context<Update>, receive: Option<u64>, expiration: i64, now: i64)
    requires
        update_result(ctx, receive, expiration, now) is Ok,
    ensures
        ({
            let before = ctx.accounts.escrow;
            let after = update_result(ctx, receive, expiration, now)->Ok_0;
            &&& after.expiration == expiration
            &&& after.expiration >= before.expiration
            &&& after.expiration > now
            &&& receive matches Some(r) ==> after.receive == r && r > 0
            &&& receive is None ==> after.receive == before.receive
            &&& after.seed == before.seed
            &&& after.maker == before.maker
            &&& after.mint_a == before.mint_a
            &&& after.mint_b == before.mint_b
            &&& after.bump == before.bump
        }),
{
}

/// Only the maker, signing, can update an escrow: any other account passed as the
/// maker gets a constraint error.
pub proof fn only_maker_updates(ctx: Context<Update>, receive: Option<u64>, expiration: i64, now: i64)
    requires
        ctx.accounts.maker@ != ctx.accounts.escrow.maker@ || !ctx.accounts.maker_is_signer,
    ensures
        update_result(ctx, receive, expiration, now) matches Err(Failure::Constraint(_)),
{
}

/// Once its expiration has come, an escrow can be neither taken nor updated; every
/// request that passes the account checks gets `EscrowExpired`.
pub proof fn expired_escrow_is_closed_to_take_and_update(
    take_ctx: Context<Take>,
    update_ctx: Context<Update>,
    receive: Option<u64>,
    expiration: i64,
    now: i64,
)
    requires
        take_ctx.accounts.escrow.expiration <= now,
        update_ctx.accounts.escrow.expiration <= now,
    ensures
        take_result(take_ctx, now) is Err,
        !(take_result(take_ctx, now) matches Err(Failure::Constraint(_)))
            ==> take_result(take_ctx, now) == Err::<crate::TakeEffect, Failure>(Failure::Escrow(EscrowError::EscrowExpired)),
        update_result(update_ctx, receive, expiration, now) is Err,
        !(update_result(update_ctx, receive, expiration, now) matches Err(Failure::Constraint(_)))
            ==> update_result(update_ctx, receive, expiration, now) == Err::<Escrow, Failure>(
            Failure::Escrow(EscrowError::EscrowExpired),
        ),
{
}

/// A refund does not depend on the time: the maker can take the deposit back at any
/// time, before or after the expiration.
pub proof fn refund_any_time(ctx: Context<Refund>)
    ensures
        refund_result(ctx) is Ok <==> crate::instructions::refund::refund_constraint_error(ctx.accounts, ctx.program_id@) is None,
        refund_result(ctx) matches Ok(effect) ==> effect.release.amount == ctx.accounts.vault.amount
            && effect.release.to == ctx.accounts.maker_ata_a.address
            && effect.close_to == ctx.accounts.maker,
{
}

/// An escrow account that already exists cannot be made again.
pub proof fn make_refuses_existing_escrow(
    ctx: Context<Make>,
    seed: u64,
    deposit: u64,
    receive: u64,
    expiration: i64,
    now: i64,
)
    requires
        ctx.accounts.escrow_in_use,
    ensures
        make_result(ctx, seed, deposit, receive, expiration, now) matches Err(Failure::Constraint(_)),
{
}

/// A take pays the maker exactly the price the escrow asks, in mint B, and gives the
/// taker everything the vault holds, in mint A, from the vault.
pub proof fn take_pays_price_and_releases_vault(ctx: Context<Take>, now: i64)
    requires
        take_result(ctx, now) is Ok,
    ensures
        ({
            let effect = take_result(ctx, now)->Ok_0;
            &&& effect.payment.amount == ctx.accounts.escrow.receive
            &&& effect.payment.mint@ == ctx.accounts.escrow.mint_b@
            &&& effect.payment.to == ctx.accounts.maker_ata_b
            &&& effect.payment.authority == ctx.accounts.taker
            &&& effect.release.amount == ctx.accounts.vault.amount
            &&& effect.release.mint@ == ctx.accounts.escrow.mint_a@
            &&& effect.release.from == ctx.accounts.vault.address
            &&& effect.release.to == ctx.accounts.taker_ata_a
            &&& effect.release.authority == ctx.accounts.escrow_address
            &&& effect.close_to@ == ctx.accounts.escrow.maker@
            &&& now < ctx.accounts.escrow.expiration
        }),
{
}

/// After an accepted update that sets a new price, a take of the updated escrow pays
/// the maker the new price.
pub proof fn take_pays_updated_price(
    update_ctx: Context<Update>,
    new_receive: u64,
    expiration: i64,
    update_now: i64,
    take_ctx: Context<Take>,
    take_now: i64,
)
    requires
        update_result(update_ctx, Some(new_receive), expiration, update_now) is Ok,
        take_ctx.accounts.escrow == update_result(update_ctx, Some(new_receive), expiration, update_now)->Ok_0,
        take_result(take_ctx, take_now) is Ok,
    ensures
        take_result(take_ctx, take_now)->Ok_0.payment.amount == new_receive,
        take_now < expiration,
{
}

/// A refund undoes a make: when the vault still holds the deposit, the refund's
/// transfer moves back exactly what the make's transfer moved, and the maker's and the
/// vault's balances are what they were before the make.
pub proof fn refund_undoes_make(
    make_ctx: Context<Make>,
    seed: u64,
    deposit: u64,
    receive: u64,
    expiration: i64,
    now: i64,
    refund_ctx: Context<Refund>,
    balances: Map<Seq<u8>, int>,
)
    requires
        make_result(make_ctx, seed, deposit, receive, expiration, now) is Ok,
        refund_result(refund_ctx) is Ok,
        refund_ctx.accounts.maker_ata_a.address == make_ctx.accounts.maker_ata_a.address,
        refund_ctx.accounts.vault.address == make_ctx.accounts.vault,
        refund_ctx.accounts.vault.amount == deposit,
        balances.dom().contains(make_ctx.accounts.maker_ata_a.address@),
        balances.dom().contains(make_ctx.accounts.vault@),
    ensures
        ({
            let made = make_result(make_ctx, seed, deposit, receive, expiration, now)->Ok_0;
            let refunded = refund_result(refund_ctx)->Ok_0;
            apply_transfer(apply_transfer(balances, made.deposit), refunded.release) == balances
        }),
{
    let made = make_result(make_ctx, seed, deposit, receive, expiration, now)->Ok_0;
    let refunded = refund_result(refund_ctx)->Ok_0;
    assert(apply_transfer(apply_transfer(balances, made.deposit), refunded.release) =~= balances);
}

/// A take is a swap: with four distinct token accounts, the maker's account for mint B
/// gains the price, the taker's account for mint B loses it, the taker's account for
/// mint A gains what the vault held and the vault is emptied.
pub proof fn take_swaps_balances(ctx: Context<Take>, now: i64, balances: Map<Seq<u8>, int>)
    requires
        take_result(ctx, now) is Ok,
        ctx.accounts.taker_ata_b.address@ != ctx.accounts.maker_ata_b@,
        ctx.accounts.vault.address@ != ctx.accounts.taker_ata_a@,
        ctx.accounts.taker_ata_b.address@ != ctx.accounts.vault.address@,
        ctx.accounts.taker_ata_b.address@ != ctx.accounts.taker_ata_a@,
        ctx.accounts.maker_ata_b@ != ctx.accounts.vault.address@,
        ctx.accounts.maker_ata_b@ != ctx.accounts.taker_ata_a@,
        balances[ctx.accounts.vault.address@] == ctx.accounts.vault.amount,
    ensures
        ({
            let effect = take_result(ctx, now)->Ok_0;
            let after = apply_transfer(apply_transfer(balances, effect.payment), effect.release);
            &&& after[ctx.accounts.maker_ata_b@] == balances[ctx.accounts.maker_ata_b@] + ctx.accounts.escrow.receive
            &&& after[ctx.accounts.taker_ata_b.address@] == balances[ctx.accounts.taker_ata_b.address@]
                - ctx.accounts.escrow.receive
            &&& after[ctx.accounts.taker_ata_a@] == balances[ctx.accounts.taker_ata_a@] + ctx.accounts.vault.amount
            &&& after[ctx.accounts.vault.address@] == 0
        }),
{
}

/// Make opens every escrow whose accounts are in order and whose terms are a
/// positive deposit, a positive price and a future expiration: it records exactly
/// those terms, under the bump the address search finds, and moves the whole deposit
/// from the maker's token account into the vault. No relation between the deposit
/// and the price, and no bound on the expiration, can refuse it.
pub proof fn make_opens_every_valid_escrow(
    ctx: Context<Make>,
    seed: u64,
    deposit: u64,
    receive: u64,
    expiration: i64,
    now: i64,
    bump: u8,
)
    requires
        ctx.accounts.maker_is_signer,
        ctx.accounts.maker_ata_a.owner@ == ctx.accounts.maker@,
        is_associated_token_address(
            ctx.accounts.maker_ata_a.address@,
            ctx.accounts.maker@,
            ctx.accounts.mint_a@,
            ctx.accounts.token_program@,
            ctx.accounts.associated_token_program@,
        ),
        found_program_address(escrow_seeds(ctx.accounts.maker@, seed), ctx.program_id@) == Some(
            (ctx.accounts.escrow_address@, bump),
        ),
        !ctx.accounts.escrow_in_use,
        is_associated_token_address(
            ctx.accounts.vault@,
            ctx.accounts.escrow_address@,
            ctx.accounts.mint_a@,
            ctx.accounts.token_program@,
            ctx.accounts.associated_token_program@,
        ),
        deposit > 0,
        receive > 0,
        expiration > now,
    ensures
        make_result(ctx, seed, deposit, receive, expiration, now) == Ok::<MakeEffect, Failure>(
            MakeEffect {
                escrow: Escrow {
                    seed: seed,
                    maker: ctx.accounts.maker,
                    mint_a: ctx.accounts.mint_a,
                    mint_b: ctx.accounts.mint_b,
                    receive: receive,
                    expiration: expiration,
                    bump: bump,
                },
                deposit: TokenTransfer {
                    from: ctx.accounts.maker_ata_a.address,
                    to: ctx.accounts.vault,
                    authority: ctx.accounts.maker,
                    mint: ctx.accounts.mint_a,
                    amount: deposit,
                },
            },
        ),
{
}

/// Any taker can take an escrow whose accounts are in order before it expires: the
/// taker pays the maker the escrow's price in mint B and receives everything the vault
/// holds in mint A, and the vault and the escrow close to the maker. Neither the
/// vault's balance nor the price can refuse it.
pub proof fn take_completes_every_live_escrow(ctx: Context<Take>, now: i64)
    requires
        ctx.accounts.taker_is_signer,
        is_associated_token_address(
            ctx.accounts.maker_ata_b@,
            ctx.accounts.maker@,
            ctx.accounts.mint_b@,
            ctx.accounts.token_program@,
            ctx.accounts.associated_token_program@,
        ),
        is_associated_token_address(
            ctx.accounts.taker_ata_a@,
            ctx.accounts.taker@,
            ctx.accounts.mint_a@,
            ctx.accounts.token_program@,
            ctx.accounts.associated_token_program@,
        ),
        ctx.accounts.taker_ata_b.owner@ == ctx.accounts.taker@,
        is_associated_token_address(
            ctx.accounts.taker_ata_b.address@,
            ctx.accounts.taker@,
            ctx.accounts.mint_b@,
            ctx.accounts.token_program@,
            ctx.accounts.associated_token_program@,
        ),
        is_escrow_address(
            ctx.accounts.escrow_address@,
            ctx.accounts.maker@,
            ctx.accounts.escrow.seed,
            ctx.accounts.escrow.bump,
            ctx.program_id@,
        ),
        ctx.accounts.escrow.maker@ == ctx.accounts.maker@,
        ctx.accounts.escrow.mint_a@ == ctx.accounts.mint_a@,
        ctx.accounts.escrow.mint_b@ == ctx.accounts.mint_b@,
        ctx.accounts.vault.owner@ == ctx.accounts.escrow_address@,
        is_associated_token_address(
            ctx.accounts.vault.address@,
            ctx.accounts.escrow_address@,
            ctx.accounts.mint_a@,
            ctx.accounts.token_program@,
            ctx.accounts.associated_token_program@,
        ),
        now < ctx.accounts.escrow.expiration,
    ensures
        take_result(ctx, now) == Ok::<TakeEffect, Failure>(
            TakeEffect {
                payment: TokenTransfer {
                    from: ctx.accounts.taker_ata_b.address,
                    to: ctx.accounts.maker_ata_b,
                    authority: ctx.accounts.taker,
                    mint: ctx.accounts.mint_b,
                    amount: ctx.accounts.escrow.receive,
                },
                release: TokenTransfer {
                    from: ctx.accounts.vault.address,
                    to: ctx.accounts.taker_ata_a,
                    authority: ctx.accounts.escrow_address,
                    mint: ctx.accounts.mint_a,
                    amount: ctx.accounts.vault.amount,
                },
                close_to: ctx.accounts.maker,
            },
        ),
{
}

/// The maker can always take the deposit back from an escrow whose accounts are in
/// order: the whole vault returns to the maker's token account, and the vault and the
/// escrow close to the maker. Neither the time nor any balance can refuse it.
pub proof fn refund_returns_every_deposit(ctx: Context<Refund>)
    requires
        ctx.accounts.maker_is_signer,
        ctx.accounts.maker_ata_a.owner@ == ctx.accounts.maker@,
        is_associated_token_address(
            ctx.accounts.maker_ata_a.address@,
            ctx.accounts.maker@,
            ctx.accounts.mint_a@,
            ctx.accounts.token_program@,
            ctx.accounts.associated_token_program@,
        ),
        is_escrow_address(
            ctx.accounts.escrow_address@,
            ctx.accounts.maker@,
            ctx.accounts.escrow.seed,
            ctx.accounts.escrow.bump,
            ctx.program_id@,
        ),
        ctx.accounts.escrow.maker@ == ctx.accounts.maker@,
        ctx.accounts.escrow.mint_a@ == ctx.accounts.mint_a@,
        ctx.accounts.vault.owner@ == ctx.accounts.escrow_address@,
        is_associated_token_address(
            ctx.accounts.vault.address@,
            ctx.accounts.escrow_address@,
            ctx.accounts.mint_a@,
            ctx.accounts.token_program@,
            ctx.accounts.associated_token_program@,
        ),
    ensures
        refund_result(ctx) == Ok::<RefundEffect, Failure>(
            RefundEffect {
                release: TokenTransfer {
                    from: ctx.accounts.vault.address,
                    to: ctx.accounts.maker_ata_a.address,
                    authority: ctx.accounts.escrow_address,
                    mint: ctx.accounts.mint_a,
                    amount: ctx.accounts.vault.amount,
                },
                close_to: ctx.accounts.maker,
            },
        ),
{
}

/// The maker can update a live escrow with any positive price (or none) and any
/// expiration that is not earlier than the current one: the escrow then asks the new
/// price, where one is given, and expires at the new time, with no bound on how far the
/// expiration moves; everything else stays.
pub proof fn update_accepts_every_extension(
    ctx: Context<Update>,
    receive: Option<u64>,
    expiration: i64,
    now: i64,
)
    requires
        ctx.accounts.maker_is_signer,
        is_escrow_address(
            ctx.accounts.escrow_address@,
            ctx.accounts.maker@,
            ctx.accounts.escrow.seed,
            ctx.accounts.escrow.bump,
            ctx.program_id@,
        ),
        ctx.accounts.escrow.maker@ == ctx.accounts.maker@,
        now < ctx.accounts.escrow.expiration,
        receive != Some(0u64),
        ctx.accounts.escrow.expiration <= expiration,
    ensures
        update_result(ctx, receive, expiration, now) == Ok::<Escrow, Failure>(
            Escrow {
                seed: ctx.accounts.escrow.seed,
                maker: ctx.accounts.escrow.maker,
                mint_a: ctx.accounts.escrow.mint_a,
                mint_b: ctx.accounts.escrow.mint_b,
                receive: match receive {
                    Some(r) => r,
                    None => ctx.accounts.escrow.receive,
                },
                expiration: expiration,
                bump: ctx.accounts.escrow.bump,
            },
        ),
{
}

} // verus!
