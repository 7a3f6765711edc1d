use std::str::FromStr;

use anchor_lang::prelude::Pubkey;
use escrowq32026::error::{ConstraintError, EscrowError, Failure};
use escrowq32026::pda::{
    check_associated_token_address, check_escrow_address, escrow_seed_tag, escrow_seeds_of,
    escrow_signer_seeds_of, find_escrow_address,
};
use escrowq32026::{
    make, refund, take, update, Address, Context, Escrow, Make, Refund, Take, TokenAccount, Update,
};

fn address_of(text: &str) -> Address {
    Address::new(Pubkey::from_str(text).unwrap().to_bytes())
}

fn program_id() -> Address {
    address_of("EBXQ5AMy7zqoFV6oXzqvR9KftoTFhuDhsAX9dNQhZnrZ")
}

fn token_program() -> Address {
    address_of("TokenkegQfeZyiNwAJbNbGKPFXCWuBvf9Ss623VQ5DA")
}

fn associated_token_program() -> Address {
    address_of("ATokenGPvbdGVxL8tiMwjvbeoF1XHnbyRvQNp68L6ktd")
}

fn ata(wallet: &Address, mint: &Address) -> Address {
    let (key, _) = Pubkey::find_program_address(
        &[&wallet.bytes, &token_program().bytes, &mint.bytes],
        &Pubkey::new_from_array(associated_token_program().bytes),
    );
    Address::new(key.to_bytes())
}

const NOW: i64 = 1_700_000_000;

fn maker() -> Address {
    Address::new([7u8; 32])
}

fn mint_a() -> Address {
    Address::new([11u8; 32])
}

fn mint_b() -> Address {
    Address::new([12u8; 32])
}

fn taker() -> Address {
    Address::new([21u8; 32])
}

fn escrow_address() -> (Address, u8) {
    find_escrow_address(&maker(), 42, &program_id()).unwrap()
}

fn open_escrow() -> Escrow {
    let (_, bump) = escrow_address();
    Escrow {
        seed: 42,
        maker: maker(),
        mint_a: mint_a(),
        mint_b: mint_b(),
        receive: 500,
        expiration: NOW + 100,
        bump,
    }
}

fn make_context() -> Context<Make> {
    let (escrow, _) = escrow_address();
    let maker_ata_a = ata(&maker(), &mint_a());
    Context {
        program_id: program_id(),
        accounts: Make {
            maker: maker(),
            maker_is_signer: true,
            mint_a: mint_a(),
            mint_b: mint_b(),
            maker_ata_a: TokenAccount { address: maker_ata_a, mint: mint_a(), owner: maker(), amount: 1_000 },
            escrow_address: escrow,
            escrow_in_use: false,
            vault: ata(&escrow, &mint_a()),
            token_program: token_program(),
            associated_token_program: associated_token_program(),
        },
    }
}

fn update_context() -> Context<Update> {
    let (escrow, _) = escrow_address();
    Context {
        program_id: program_id(),
        accounts: Update { maker: maker(), maker_is_signer: true, escrow_address: escrow, escrow: open_escrow() },
    }
}

fn take_context() -> Context<Take> {
    let (escrow, _) = escrow_address();
    Context {
        program_id: program_id(),
        accounts: Take {
            taker: taker(),
            taker_is_signer: true,
            maker: maker(),
            mint_a: mint_a(),
            mint_b: mint_b(),
            maker_ata_b: ata(&maker(), &mint_b()),
            taker_ata_a: ata(&taker(), &mint_a()),
            taker_ata_b: TokenAccount {
                address: ata(&taker(), &mint_b()),
                mint: mint_b(),
                owner: taker(),
                amount: 9_000,
            },
            escrow_address: escrow,
            escrow: open_escrow(),
            vault: TokenAccount { address: ata(&escrow, &mint_a()), mint: mint_a(), owner: escrow, amount: 300 },
            token_program: token_program(),
            associated_token_program: associated_token_program(),
        },
    }
}

fn refund_context() -> Context<Refund> {
    let (escrow, _) = escrow_address();
    Context {
        program_id: program_id(),
        accounts: Refund {
            maker: maker(),
            maker_is_signer: true,
            mint_a: mint_a(),
            maker_ata_a: TokenAccount {
                address: ata(&maker(), &mint_a()),
                mint: mint_a(),
                owner: maker(),
                amount: 700,
            },
            escrow_address: escrow,
            escrow: open_escrow(),
            vault: TokenAccount { address: ata(&escrow, &mint_a()), mint: mint_a(), owner: escrow, amount: 300 },
            token_program: token_program(),
            associated_token_program: associated_token_program(),
        },
    }
}

#[test]
fn escrow_address_matches_program_derivation() {
    let (escrow, bump) = escrow_address();
    let (expected, expected_bump) = Pubkey::find_program_address(
        &[b"escrow", &maker().bytes, &42u64.to_le_bytes()],
        &Pubkey::new_from_array(program_id().bytes),
    );
    assert_eq!(escrow.bytes, expected.to_bytes());
    assert_eq!(bump, expected_bump);
    assert_ne!(escrow.bytes, maker().bytes);
    assert_ne!(escrow.bytes, program_id().bytes);
    assert!(check_escrow_address(&escrow, &maker(), 42, bump, &program_id()));
    assert!(!check_escrow_address(&escrow, &maker(), 43, bump, &program_id()));
    if bump < 255 {
        assert!(!check_escrow_address(&escrow, &maker(), 42, bump + 1, &program_id()));
    }
    assert!(!check_escrow_address(&escrow, &taker(), 42, bump, &program_id()));
    assert!(!check_escrow_address(&maker(), &maker(), 42, bump, &program_id()));
}

#[test]
fn escrow_seeds_are_tag_maker_and_seed_bytes() {
    assert_eq!(escrow_seed_tag(), b"escrow".to_vec());
    let seeds = escrow_seeds_of(&maker(), 0x0102030405060708);
    assert_eq!(seeds.len(), 3);
    assert_eq!(seeds[0], b"escrow".to_vec());
    assert_eq!(seeds[1], vec![7u8; 32]);
    assert_eq!(seeds[2], vec![8u8, 7, 6, 5, 4, 3, 2, 1]);
    let signer = escrow_signer_seeds_of(&maker(), 0x0102030405060708, 254);
    assert_eq!(signer.len(), 4);
    assert_eq!(signer[3], vec![254u8]);
}

#[test]
fn associated_token_address_is_checked() {
    let address = ata(&maker(), &mint_a());
    assert_ne!(address.bytes, maker().bytes);
    assert!(check_associated_token_address(
        &address,
        &maker(),
        &mint_a(),
        &token_program(),
        &associated_token_program()
    ));
    assert!(!check_associated_token_address(
        &address,
        &maker(),
        &mint_b(),
        &token_program(),
        &associated_token_program()
    ));
    assert!(!check_associated_token_address(
        &maker(),
        &maker(),
        &mint_a(),
        &token_program(),
        &associated_token_program()
    ));
}

#[test]
fn address_comparison_and_seed_bytes() {
    let a = Address::new([3u8; 32]);
    let mut other = [3u8; 32];
    assert!(a.same(&Address::new(other)));
    other[31] = 4;
    assert!(!a.same(&Address::new(other)));
    assert_eq!(a.to_seed(), vec![3u8; 32]);
}

#[test]
fn error_messages() {
    assert_eq!(EscrowError::EscrowExpired.message(), "The escrow has expired");
    assert_eq!(EscrowError::InvalidDepositAmount.message(), "Deposit amount must be greater than zero");
    assert_eq!(EscrowError::InvalidReceiveAmount.message(), "Receive amount must be greater than zero");
    assert_eq!(
        EscrowError::InvalidExpiration.message(),
        "Expiration must be in the future and can only be extended"
    );
}

#[test]
fn make_records_terms_and_deposit() {
    let ctx = make_context();
    let made = make(&ctx, 42, 250, 500, NOW + 100, NOW).unwrap();
    let (escrow, bump) = escrow_address();
    assert_eq!(made.escrow.seed, 42);
    assert_eq!(made.escrow.maker.bytes, maker().bytes);
    assert_eq!(made.escrow.mint_a.bytes, mint_a().bytes);
    assert_eq!(made.escrow.mint_b.bytes, mint_b().bytes);
    assert_eq!(made.escrow.receive, 500);
    assert_eq!(made.escrow.expiration, NOW + 100);
    assert_eq!(made.escrow.bump, bump);
    assert_eq!(made.deposit.amount, 250);
    assert_eq!(made.deposit.from.bytes, ata(&maker(), &mint_a()).bytes);
    assert_eq!(made.deposit.to.bytes, ata(&escrow, &mint_a()).bytes);
    assert_eq!(made.deposit.authority.bytes, maker().bytes);
    assert_eq!(made.deposit.mint.bytes, mint_a().bytes);
    assert!(check_escrow_address(&escrow, &maker(), 42, made.escrow.bump, &program_id()));
}

#[test]
fn make_refusals() {
    let err = |ctx: &Context<Make>, deposit: u64, receive: u64, expiration: i64| {
        make(ctx, 42, deposit, receive, expiration, NOW).unwrap_err()
    };
    let mut ctx = make_context();
    assert_eq!(err(&ctx, 0, 500, NOW + 1), Failure::Escrow(EscrowError::InvalidDepositAmount));
    assert_eq!(err(&ctx, 10, 0, NOW + 1), Failure::Escrow(EscrowError::InvalidReceiveAmount));
    assert_eq!(err(&ctx, 10, 500, NOW), Failure::Escrow(EscrowError::InvalidExpiration));
    ctx.accounts.escrow_in_use = true;
    assert_eq!(err(&ctx, 10, 500, NOW + 1), Failure::Constraint(ConstraintError::AccountAlreadyInUse));

    let mut ctx = make_context();
    ctx.accounts.maker_is_signer = false;
    assert_eq!(err(&ctx, 10, 500, NOW + 1), Failure::Constraint(ConstraintError::AccountNotSigner));

    let mut ctx = make_context();
    ctx.accounts.maker_ata_a.owner = taker();
    assert_eq!(err(&ctx, 10, 500, NOW + 1), Failure::Constraint(ConstraintError::ConstraintTokenOwner));

    let mut ctx = make_context();
    ctx.accounts.maker_ata_a.address = ata(&maker(), &mint_b());
    assert_eq!(err(&ctx, 10, 500, NOW + 1), Failure::Constraint(ConstraintError::ConstraintAssociated));

    let mut ctx = make_context();
    ctx.accounts.escrow_address = Address::new([5u8; 32]);
    assert_eq!(err(&ctx, 10, 500, NOW + 1), Failure::Constraint(ConstraintError::ConstraintSeeds));

    let mut ctx = make_context();
    ctx.accounts.vault = ata(&maker(), &mint_a());
    assert_eq!(err(&ctx, 10, 500, NOW + 1), Failure::Constraint(ConstraintError::ConstraintAssociated));
}

#[test]
fn update_sets_price_and_extends() {
    let mut ctx = update_context();
    update(&mut ctx, Some(800), NOW + 500, NOW).unwrap();
    assert_eq!(ctx.accounts.escrow.receive, 800);
    assert_eq!(ctx.accounts.escrow.expiration, NOW + 500);
    assert_eq!(ctx.accounts.escrow.seed, 42);

    let mut ctx = update_context();
    update(&mut ctx, Some(20), NOW + 100, NOW).unwrap();
    assert_eq!(ctx.accounts.escrow.receive, 20);
    assert_eq!(ctx.accounts.escrow.expiration, NOW + 100);

    let mut ctx = update_context();
    update(&mut ctx, None, NOW + 101, NOW).unwrap();
    assert_eq!(ctx.accounts.escrow.receive, 500);
    assert_eq!(ctx.accounts.escrow.expiration, NOW + 101);
}

#[test]
fn update_refusals_leave_escrow_unchanged() {
    let check = |ctx: &mut Context<Update>, receive: Option<u64>, expiration: i64, now: i64, expected: Failure| {
        let before = ctx.accounts.escrow;
        assert_eq!(update(ctx, receive, expiration, now).unwrap_err(), expected);
        assert_eq!(ctx.accounts.escrow.receive, before.receive);
        assert_eq!(ctx.accounts.escrow.expiration, before.expiration);
    };
    check(&mut update_context(), Some(800), NOW + 500, NOW + 100, Failure::Escrow(EscrowError::EscrowExpired));
    check(&mut update_context(), Some(0), NOW + 500, NOW, Failure::Escrow(EscrowError::InvalidReceiveAmount));
    check(&mut update_context(), None, NOW + 50, NOW, Failure::Escrow(EscrowError::InvalidExpiration));

    let mut ctx = update_context();
    ctx.accounts.maker_is_signer = false;
    check(&mut ctx, None, NOW + 500, NOW, Failure::Constraint(ConstraintError::AccountNotSigner));

    let mut ctx = update_context();
    ctx.accounts.maker = taker();
    check(&mut ctx, None, NOW + 500, NOW, Failure::Constraint(ConstraintError::ConstraintSeeds));

    let mut ctx = update_context();
    ctx.accounts.escrow.maker = taker();
    check(&mut ctx, None, NOW + 500, NOW, Failure::Constraint(ConstraintError::ConstraintHasOne));
}

#[test]
fn update_method_alone() {
    let mut accounts = update_context().accounts;
    assert_eq!(accounts.update(Some(0), NOW + 500, NOW), Err(EscrowError::InvalidReceiveAmount));
    assert_eq!(accounts.escrow.receive, 500);
    assert_eq!(accounts.update(Some(9), NOW + 500, NOW), Ok(()));
    assert_eq!(accounts.escrow.receive, 9);
    assert_eq!(accounts.escrow.expiration, NOW + 500);
    assert_eq!(accounts.validate(&program_id()), Ok(()));
}

#[test]
fn take_pays_maker_and_releases_vault() {
    let ctx = take_context();
    let taken = take(&ctx, NOW + 99).unwrap();
    let (escrow, _) = escrow_address();
    assert_eq!(taken.payment.amount, 500);
    assert_eq!(taken.payment.from.bytes, ata(&taker(), &mint_b()).bytes);
    assert_eq!(taken.payment.to.bytes, ata(&maker(), &mint_b()).bytes);
    assert_eq!(taken.payment.authority.bytes, taker().bytes);
    assert_eq!(taken.payment.mint.bytes, mint_b().bytes);
    assert_eq!(taken.release.amount, 300);
    assert_eq!(taken.release.from.bytes, ata(&escrow, &mint_a()).bytes);
    assert_eq!(taken.release.to.bytes, ata(&taker(), &mint_a()).bytes);
    assert_eq!(taken.release.authority.bytes, escrow.bytes);
    assert_eq!(taken.release.mint.bytes, mint_a().bytes);
    assert_eq!(taken.close_to.bytes, maker().bytes);
}

#[test]
fn take_refusals() {
    let ctx = take_context();
    assert_eq!(take(&ctx, NOW + 100).unwrap_err(), Failure::Escrow(EscrowError::EscrowExpired));

    let mut ctx = take_context();
    ctx.accounts.taker_is_signer = false;
    assert_eq!(take(&ctx, NOW).unwrap_err(), Failure::Constraint(ConstraintError::AccountNotSigner));

    let mut ctx = take_context();
    ctx.accounts.mint_b = Address::new([13u8; 32]);
    ctx.accounts.maker_ata_b = ata(&maker(), &ctx.accounts.mint_b);
    ctx.accounts.taker_ata_b.address = ata(&taker(), &ctx.accounts.mint_b);
    assert_eq!(take(&ctx, NOW).unwrap_err(), Failure::Constraint(ConstraintError::ConstraintHasOne));

    let mut ctx = take_context();
    ctx.accounts.vault.owner = maker();
    assert_eq!(take(&ctx, NOW).unwrap_err(), Failure::Constraint(ConstraintError::ConstraintTokenOwner));

    let mut ctx = take_context();
    ctx.accounts.taker_ata_a = ata(&maker(), &mint_a());
    assert_eq!(take(&ctx, NOW).unwrap_err(), Failure::Constraint(ConstraintError::ConstraintAssociated));

    let mut ctx = take_context();
    ctx.accounts.maker = taker();
    ctx.accounts.maker_ata_b = ata(&taker(), &mint_b());
    assert_eq!(take(&ctx, NOW).unwrap_err(), Failure::Constraint(ConstraintError::ConstraintSeeds));
}

#[test]
fn refund_any_time_returns_vault() {
    let ctx = refund_context();
    let refunded = refund(&ctx).unwrap();
    let (escrow, _) = escrow_address();
    assert_eq!(refunded.release.amount, 300);
    assert_eq!(refunded.release.from.bytes, ata(&escrow, &mint_a()).bytes);
    assert_eq!(refunded.release.to.bytes, ata(&maker(), &mint_a()).bytes);
    assert_eq!(refunded.release.authority.bytes, escrow.bytes);
    assert_eq!(refunded.close_to.bytes, maker().bytes);

    let mut ctx = refund_context();
    ctx.accounts.escrow.expiration = NOW - 10_000;
    assert!(refund(&ctx).is_ok());
}

#[test]
fn refund_refusals() {
    let mut ctx = refund_context();
    ctx.accounts.maker_is_signer = false;
    assert_eq!(refund(&ctx).unwrap_err(), Failure::Constraint(ConstraintError::AccountNotSigner));

    let mut ctx = refund_context();
    ctx.accounts.escrow.mint_a = mint_b();
    assert_eq!(refund(&ctx).unwrap_err(), Failure::Constraint(ConstraintError::ConstraintHasOne));

    let mut ctx = refund_context();
    ctx.accounts.maker_ata_a.owner = taker();
    assert_eq!(refund(&ctx).unwrap_err(), Failure::Constraint(ConstraintError::ConstraintTokenOwner));

    let mut ctx = refund_context();
    ctx.accounts.escrow.bump = ctx.accounts.escrow.bump.wrapping_sub(1);
    assert_eq!(refund(&ctx).unwrap_err(), Failure::Constraint(ConstraintError::ConstraintSeeds));
}

#[test]
fn refund_undoes_make_on_balances() {
    let ctx = make_context();
    let made = make(&ctx, 42, 250, 500, NOW + 100, NOW).unwrap();
    let mut refund_ctx = refund_context();
    refund_ctx.accounts.vault.amount = 250;
    let refunded = refund(&refund_ctx).unwrap();
    assert_eq!(made.deposit.from.bytes, refunded.release.to.bytes);
    assert_eq!(made.deposit.to.bytes, refunded.release.from.bytes);
    assert_eq!(made.deposit.amount, refunded.release.amount);
}

#[test]
fn take_after_update_pays_new_price() {
    let mut uctx = update_context();
    update(&mut uctx, Some(1_234), NOW + 1_000, NOW).unwrap();
    let mut tctx = take_context();
    tctx.accounts.escrow = uctx.accounts.escrow;
    assert_eq!(take(&tctx, NOW + 999).unwrap().payment.amount, 1_234);
    assert!(take(&tctx, NOW + 1_000).is_err());
}
