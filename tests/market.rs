use anchor_lang::prelude::Pubkey;
use energy_token::address::Address;
use energy_token::error::EnergyError;
use energy_token::market::{
    apply_cancel_sell_order, apply_fill_sell_order, cancel_sell_order, create_sell_order,
    fill_sell_order, CancelSellOrder, CreateSellOrder, FillSellOrder, SellOrder,
};
use energy_token::token::TokenAccount;

fn addr(b: u8) -> Address {
    Address::new([b; 32])
}

fn pk(a: &Address) -> Pubkey {
    Pubkey::new_from_array(a.bytes)
}

const PROGRAM: u8 = 1;
const SELLER: u8 = 2;
const MINT: u8 = 3;
const BUYER: u8 = 4;

fn order_address(nonce: u64) -> Address {
    let (key, _bump) = Pubkey::find_program_address(
        &[b"order", &[SELLER; 32], &[MINT; 32], &nonce.to_le_bytes()],
        &pk(&addr(PROGRAM)),
    );
    Address::new(key.to_bytes())
}

fn vault_authority(order: &Address) -> Address {
    let (key, _bump) =
        Pubkey::find_program_address(&[b"vault-authority", &order.bytes], &pk(&addr(PROGRAM)));
    Address::new(key.to_bytes())
}

fn create_ctx(nonce: u64, balance: u64) -> CreateSellOrder {
    let order = order_address(nonce);
    CreateSellOrder {
        seller: addr(SELLER),
        seller_token: TokenAccount { mint: addr(MINT), owner: addr(SELLER), amount: balance },
        order_address: order,
        order: None,
        vault_authority: vault_authority(&order),
        vault_ata: None,
        mint: addr(MINT),
    }
}

fn create(nonce: u64, balance: u64, amount: u64, price: u64) -> CreateSellOrder {
    let mut ctx = create_ctx(nonce, balance);
    let r = create_sell_order(&mut ctx, &addr(PROGRAM), nonce, amount, price);
    assert!(r == Ok(order_address(nonce)));
    ctx
}

fn fill_ctx(c: &CreateSellOrder, buyer_lamports: u64) -> FillSellOrder {
    FillSellOrder {
        buyer: addr(BUYER),
        buyer_lamports,
        buyer_token: None,
        seller: addr(SELLER),
        seller_lamports: 0,
        order_address: c.order_address,
        order: c.order,
        vault_authority: c.vault_authority,
        vault_ata: c.vault_ata,
        mint: addr(MINT),
    }
}

fn cancel_ctx(
    order_address: Address,
    vault_authority: Address,
    order: Option<SellOrder>,
    vault: Option<TokenAccount>,
    seller_balance: u64,
) -> CancelSellOrder {
    CancelSellOrder {
        seller: addr(SELLER),
        order_address,
        order,
        vault_authority,
        vault_ata: vault,
        seller_token: TokenAccount { mint: addr(MINT), owner: addr(SELLER), amount: seller_balance },
        mint: addr(MINT),
    }
}

#[test]
fn create_escrows_tokens_and_records_order() {
    let c = create(7, 150, 100, 5);
    assert_eq!(c.seller_token.amount, 50);
    let vault = c.vault_ata.unwrap();
    assert_eq!(vault.amount, 100);
    assert!(vault.owner == c.vault_authority);
    let o = c.order.unwrap();
    assert_eq!(o.amount_remaining, 100);
    assert!(o.active);
    assert_eq!(o.price_lamports_per_token, 5);
    assert_eq!(o.order_nonce, 7);
    let (_, order_bump) = Pubkey::find_program_address(
        &[b"order", &[SELLER; 32], &[MINT; 32], &7u64.to_le_bytes()],
        &pk(&addr(PROGRAM)),
    );
    let (_, vault_bump) = Pubkey::find_program_address(
        &[b"vault-authority", &c.order_address.bytes],
        &pk(&addr(PROGRAM)),
    );
    assert_eq!(o.order_bump, order_bump);
    assert_eq!(o.vault_auth_bump, vault_bump);
}

#[test]
fn create_then_cancel_returns_all_tokens() {
    let c = create(1, 100, 100, 5);
    assert_eq!(c.seller_token.amount, 0);
    let mut k = cancel_ctx(c.order_address, c.vault_authority, c.order, c.vault_ata, c.seller_token.amount);
    assert_eq!(cancel_sell_order(&mut k, &addr(PROGRAM)), Ok(100));
    assert_eq!(k.seller_token.amount, 100);
    assert!(k.order.is_none());
    assert!(k.vault_ata.is_none());
}

#[test]
fn two_fills_empty_the_order() {
    let c = create(2, 100, 100, 5);
    let mut f = fill_ctx(&c, 1_000);
    assert_eq!(fill_sell_order(&mut f, &addr(PROGRAM), 40), Ok(200));
    assert_eq!(f.order.unwrap().amount_remaining, 60);
    assert!(f.order.unwrap().active);
    assert_eq!(f.vault_ata.unwrap().amount, 60);
    assert_eq!(fill_sell_order(&mut f, &addr(PROGRAM), 60), Ok(300));
    assert_eq!(f.order.unwrap().amount_remaining, 0);
    assert!(!f.order.unwrap().active);
    assert_eq!(f.vault_ata.unwrap().amount, 0);
    assert_eq!(1_000 - f.buyer_lamports, 100 * 5);
    assert_eq!(f.seller_lamports, 500);
    assert_eq!(f.buyer_token.unwrap().amount, 100);
    assert_eq!(fill_sell_order(&mut f, &addr(PROGRAM), 1), Err(EnergyError::InactiveOrder));
}

#[test]
fn fill_zero_or_too_much_is_refused() {
    let c = create(3, 100, 100, 5);
    let mut f = fill_ctx(&c, 1_000);
    assert_eq!(fill_sell_order(&mut f, &addr(PROGRAM), 0), Err(EnergyError::InvalidAmount));
    assert_eq!(fill_sell_order(&mut f, &addr(PROGRAM), 101), Err(EnergyError::InsufficientOrderAmount));
    assert_eq!(f.order.unwrap().amount_remaining, 100);
    assert_eq!(f.vault_ata.unwrap().amount, 100);
    assert_eq!(f.buyer_lamports, 1_000);
}

#[test]
fn fills_that_jointly_overdraw_do_not_both_commit() {
    let c = create(4, 100, 100, 5);
    let mut f = fill_ctx(&c, 1_000);
    let first = fill_sell_order(&mut f, &addr(PROGRAM), 60);
    let second = fill_sell_order(&mut f, &addr(PROGRAM), 60);
    assert_eq!(first, Ok(300));
    assert_eq!(second, Err(EnergyError::InsufficientOrderAmount));
    assert_eq!(f.buyer_token.unwrap().amount, 60);
    assert_eq!(f.order.unwrap().amount_remaining, 40);
}

#[test]
fn cost_overflow_is_refused() {
    let big: u64 = 1 << 40;
    let c = create(5, big, big, big);
    let mut f = fill_ctx(&c, u64::MAX);
    assert_eq!(fill_sell_order(&mut f, &addr(PROGRAM), big), Err(EnergyError::MathOverflow));
    assert_eq!(f.order.unwrap().amount_remaining, big);
    assert_eq!(f.buyer_lamports, u64::MAX);
}

#[test]
fn fill_without_enough_lamports_is_refused() {
    let c = create(6, 100, 100, 5);
    let mut f = fill_ctx(&c, 49);
    assert_eq!(fill_sell_order(&mut f, &addr(PROGRAM), 10), Err(EnergyError::InsufficientFunds));
    assert_eq!(fill_sell_order(&mut f, &addr(PROGRAM), 9), Ok(45));
    assert_eq!(f.buyer_lamports, 4);
}

#[test]
fn fill_with_forged_authority_is_refused() {
    let c = create(8, 100, 100, 5);
    let mut f = fill_ctx(&c, 1_000);
    f.vault_authority = addr(9);
    assert_eq!(fill_sell_order(&mut f, &addr(PROGRAM), 10), Err(EnergyError::Unauthorized));
    let mut f = fill_ctx(&c, 1_000);
    assert_eq!(apply_fill_sell_order(&mut f, None, 10), Err(EnergyError::Unauthorized));
    let mut f = fill_ctx(&c, 1_000);
    f.seller = addr(9);
    assert_eq!(fill_sell_order(&mut f, &addr(PROGRAM), 10), Err(EnergyError::Unauthorized));
    let mut f = fill_ctx(&c, 1_000);
    f.order = None;
    assert_eq!(fill_sell_order(&mut f, &addr(PROGRAM), 10), Err(EnergyError::MissingAccount));
}

#[test]
fn create_errors() {
    let mut ctx = create_ctx(10, 50);
    assert_eq!(create_sell_order(&mut ctx, &addr(PROGRAM), 10, 0, 5), Err(EnergyError::InvalidAmount));
    assert_eq!(create_sell_order(&mut ctx, &addr(PROGRAM), 10, 51, 5), Err(EnergyError::InsufficientFunds));
    // The order address must be the one derived from this nonce.
    assert_eq!(create_sell_order(&mut ctx, &addr(PROGRAM), 11, 10, 5), Err(EnergyError::Unauthorized));
    assert!(ctx.order.is_none());
    assert_eq!(ctx.seller_token.amount, 50);
    assert_eq!(create_sell_order(&mut ctx, &addr(PROGRAM), 10, 10, 5), Ok(order_address(10)));
    // The same seller, token and nonce cannot open a second order.
    assert_eq!(create_sell_order(&mut ctx, &addr(PROGRAM), 10, 10, 5), Err(EnergyError::AccountInUse));
    assert_eq!(ctx.seller_token.amount, 40);
}

#[test]
fn cancel_by_other_than_seller_is_unauthorized() {
    let c = create(12, 100, 100, 5);
    let mut k = cancel_ctx(c.order_address, c.vault_authority, c.order, c.vault_ata, 0);
    k.seller = addr(9);
    k.seller_token.owner = addr(9);
    assert_eq!(cancel_sell_order(&mut k, &addr(PROGRAM)), Err(EnergyError::Unauthorized));
    assert!(k.order.is_some());
    let mut k = cancel_ctx(c.order_address, c.vault_authority, c.order, c.vault_ata, 0);
    assert_eq!(apply_cancel_sell_order(&mut k, Some(addr(9))), Err(EnergyError::Unauthorized));
}

#[test]
fn cancel_of_filled_order_closes_empty_records() {
    let c = create(13, 100, 100, 5);
    let mut f = fill_ctx(&c, 1_000);
    assert_eq!(fill_sell_order(&mut f, &addr(PROGRAM), 100), Ok(500));
    let mut k = cancel_ctx(f.order_address, f.vault_authority, f.order, f.vault_ata, 0);
    assert_eq!(cancel_sell_order(&mut k, &addr(PROGRAM)), Ok(0));
    assert_eq!(k.seller_token.amount, 0);
    assert!(k.order.is_none());
    assert!(k.vault_ata.is_none());
    assert_eq!(cancel_sell_order(&mut k, &addr(PROGRAM)), Err(EnergyError::MissingAccount));
}

#[test]
fn cancel_after_partial_fill_returns_rest() {
    let c = create(14, 100, 100, 5);
    let mut f = fill_ctx(&c, 1_000);
    assert_eq!(fill_sell_order(&mut f, &addr(PROGRAM), 30), Ok(150));
    let mut k = cancel_ctx(f.order_address, f.vault_authority, f.order, f.vault_ata, 0);
    assert_eq!(cancel_sell_order(&mut k, &addr(PROGRAM)), Ok(70));
    assert_eq!(k.seller_token.amount, 70);
}
