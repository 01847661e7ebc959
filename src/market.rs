use crate::address::{
    create_program_address, created_program_address, find_program_address,
    found_program_address, order_seed_vec, order_seeds, push_bump, vault_authority_seed_vec,
    vault_authority_seeds, with_bump, Address,
};
use crate::error::EnergyError;
use crate::token::{balance_of, check_usable, credit, credited, usable_for, TokenAccount};
use vstd::prelude::*;

verus! {

/// One listing: a seller's tokens held in escrow, offered at a fixed price.
#[derive(Debug, Clone, Copy)]
pub struct SellOrder {
    /// Receives the payments; the only one who may cancel.
    pub seller: Address,
    /// The token that is escrowed.
    pub mint: Address,
    /// Payment owed per unit of token.
    pub price_lamports_per_token: u64,
    /// Units still available to fill.
    pub amount_remaining: u64,
    /// True while the order is fillable.
    pub active: bool,
    /// Caller-chosen disambiguator among orders of one seller and token.
    pub order_nonce: u64,
    /// Bump seed of the order's own address.
    pub order_bump: u8,
    /// Bump seed of the vault authority's address.
    pub vault_auth_bump: u8,
}

/// An order and its vault agree: the vault holds exactly what the order still
/// offers, and an order with nothing left is no longer active.
pub open spec fn escrow_consistent(order: SellOrder, vault: TokenAccount) -> bool {
    &&& vault.amount == order.amount_remaining
    &&& order.amount_remaining == 0 ==> !order.active
}

/// One fill of `qty` units on the order alone: the order after it, or why
/// it is refused.
pub open spec fn fill_order(order: SellOrder, qty: u64) -> Result<SellOrder, EnergyError> {
    if qty == 0 {
        Err(EnergyError::InvalidAmount)
    } else if !order.active {
        Err(EnergyError::InactiveOrder)
    } else if qty > order.amount_remaining {
        Err(EnergyError::InsufficientOrderAmount)
    } else {
        Ok(SellOrder {
            amount_remaining: (order.amount_remaining - qty) as u64,
            active: order.amount_remaining - qty != 0,
            ..order
        })
    }
}

/// The accounts of a new order: the seller and their balance, the order's
/// address and record (absent until created), the vault authority and the
/// vault (absent until created), and the token listed.
#[derive(Debug, Clone, Copy)]
pub struct CreateSellOrder {
    /// The signer, who pays and lists.
    pub seller: Address,
    pub seller_token: TokenAccount,
    pub order_address: Address,
    pub order: Option<SellOrder>,
    pub vault_authority: Address,
    pub vault_ata: Option<TokenAccount>,
    pub mint: Address,
}

/// Why creating an order fails, given what derivation found for the order's
/// seeds and for its vault authority's seeds; `None` when it succeeds.
pub open spec fn create_error(
    ctx: CreateSellOrder,
    order_pda: Option<(Seq<u8>, u8)>,
    vault_pda: Option<(Seq<u8>, u8)>,
    amount: u64,
) -> Option<EnergyError> {
    if amount == 0 {
        Some(EnergyError::InvalidAmount)
    } else if !ctx.seller_token.holds(ctx.mint, ctx.seller) {
        Some(EnergyError::Unauthorized)
    } else if order_pda is None || vault_pda is None {
        Some(EnergyError::InvalidSeeds)
    } else if order_pda.unwrap().0 != ctx.order_address@ || vault_pda.unwrap().0 != ctx.vault_authority@ {
        Some(EnergyError::Unauthorized)
    } else if ctx.order is Some || ctx.vault_ata is Some {
        Some(EnergyError::AccountInUse)
    } else if ctx.seller_token.amount < amount {
        Some(EnergyError::InsufficientFunds)
    } else {
        None
    }
}

/// The accounts after `amount` units moved from the seller into a new vault
/// and the order was recorded with the two bump seeds.
pub open spec fn created(
    ctx: CreateSellOrder,
    order_bump: u8,
    vault_auth_bump: u8,
    order_nonce: u64,
    amount: u64,
    price: u64,
) -> CreateSellOrder {
    CreateSellOrder {
        seller_token: TokenAccount { amount: (ctx.seller_token.amount - amount) as u64, ..ctx.seller_token },
        order: Some(
            SellOrder {
                seller: ctx.seller,
                mint: ctx.mint,
                price_lamports_per_token: price,
                amount_remaining: amount,
                active: true,
                order_nonce,
                order_bump,
                vault_auth_bump,
            },
        ),
        vault_ata: Some(TokenAccount { mint: ctx.mint, owner: ctx.vault_authority, amount }),
        ..ctx
    }
}

/// What a derivation result says, in terms of address bytes.
pub open spec fn pda_view(p: Option<(Address, u8)>) -> Option<(Seq<u8>, u8)> {
    match p {
        Some(q) => Some((q.0@, q.1)),
        None => None,
    }
}

/// What a re-derivation result says, in terms of address bytes.
pub open spec fn address_view(p: Option<Address>) -> Option<Seq<u8>> {
    match p {
        Some(a) => Some(a@),
        None => None,
    }
}

/// Creating an order, given the address and bump that derivation found for
/// the order's seeds and for its vault authority's seeds. Returns the order's
/// address.
pub fn apply_create_sell_order(
    ctx: &mut CreateSellOrder,
    order_pda: Option<(Address, u8)>,
    vault_pda: Option<(Address, u8)>,
    order_nonce: u64,
    amount: u64,
    price_lamports_per_token: u64,
) -> (r: Result<Address, EnergyError>)
    ensures
        ({
            let e = create_error(*old(ctx), pda_view(order_pda), pda_view(vault_pda), amount);
            &&& r is Ok <==> e is None
            &&& r is Err ==> r == Err::<Address, EnergyError>(e.unwrap()) && *final(ctx) == *old(ctx)
            &&& r is Ok ==> r == Ok::<Address, EnergyError>(old(ctx).order_address) && *final(ctx)
                == created(*old(ctx), order_pda.unwrap().1, vault_pda.unwrap().1, order_nonce, amount, price_lamports_per_token)
        }),
        r is Ok ==> escrow_consistent(final(ctx).order.unwrap(), final(ctx).vault_ata.unwrap()),
        r is Ok ==> final(ctx).order.unwrap().active,
{
    if amount == 0 {
        return Err(EnergyError::InvalidAmount);
    }
    if !ctx.seller_token.is_for(&ctx.mint, &ctx.seller) {
        return Err(EnergyError::Unauthorized);
    }
    let (order_address, order_bump) = match order_pda {
        Some(p) => p,
        None => {
            return Err(EnergyError::InvalidSeeds);
        },
    };
    let (vault_authority, vault_auth_bump) = match vault_pda {
        Some(p) => p,
        None => {
            return Err(EnergyError::InvalidSeeds);
        },
    };
    if !order_address.same(&ctx.order_address) || !vault_authority.same(&ctx.vault_authority) {
        return Err(EnergyError::Unauthorized);
    }
    if ctx.order.is_some() || ctx.vault_ata.is_some() {
        return Err(EnergyError::AccountInUse);
    }
    if ctx.seller_token.amount < amount {
        return Err(EnergyError::InsufficientFunds);
    }
    ctx.seller_token.amount = ctx.seller_token.amount - amount;
    ctx.vault_ata = Some(TokenAccount { mint: ctx.mint, owner: ctx.vault_authority, amount });
    ctx.order = Some(
        SellOrder {
            seller: ctx.seller,
            mint: ctx.mint,
            price_lamports_per_token,
            amount_remaining: amount,
            active: true,
            order_nonce,
            order_bump,
            vault_auth_bump,
        },
    );
    Ok(ctx.order_address)
}

/// The seller lists `amount` units at `price_lamports_per_token`: the order's
/// address is derived from `("order", seller, mint, nonce)` and its vault
/// authority's from `("vault-authority", order)` under `program_id`, the
/// tokens move into the new vault, and the order is recorded with both bump
/// seeds. Returns the order's address; any failure changes nothing.
pub fn create_sell_order(
    ctx: &mut CreateSellOrder,
    program_id: &Address,
    order_nonce: u64,
    amount: u64,
    price_lamports_per_token: u64,
) -> (r: Result<Address, EnergyError>)
    ensures
        ({
            let order_pda = found_program_address(order_seeds(old(ctx).seller@, old(ctx).mint@, order_nonce), program_id@);
            let vault_pda = found_program_address(vault_authority_seeds(old(ctx).order_address@), program_id@);
            let e = create_error(*old(ctx), order_pda, vault_pda, amount);
            &&& r is Ok <==> e is None
            &&& r is Err ==> r == Err::<Address, EnergyError>(e.unwrap()) && *final(ctx) == *old(ctx)
            &&& r is Ok ==> r == Ok::<Address, EnergyError>(old(ctx).order_address) && *final(ctx)
                == created(*old(ctx), order_pda.unwrap().1, vault_pda.unwrap().1, order_nonce, amount, price_lamports_per_token)
        }),
        r is Ok ==> escrow_consistent(final(ctx).order.unwrap(), final(ctx).vault_ata.unwrap()),
        r is Ok ==> created_program_address(
            with_bump(vault_authority_seeds(old(ctx).order_address@), final(ctx).order.unwrap().vault_auth_bump),
            program_id@,
        ) == Some(old(ctx).vault_authority@),
{
    let order_seeds = order_seed_vec(&ctx.seller, &ctx.mint, order_nonce);
    let order_pda = find_program_address(&order_seeds, program_id);
    let vault_seeds = vault_authority_seed_vec(&ctx.order_address);
    let vault_pda = find_program_address(&vault_seeds, program_id);
    apply_create_sell_order(ctx, order_pda, vault_pda, order_nonce, amount, price_lamports_per_token)
}

/// The accounts of a fill: the buyer with their payment balance and token
/// balance, the seller with their payment balance, the order, its vault
/// authority and vault, and the token listed.
#[derive(Debug, Clone, Copy)]
pub struct FillSellOrder {
    /// The signer, who pays and receives the tokens.
    pub buyer: Address,
    pub buyer_lamports: u64,
    /// The buyer's balance of the token; created by the fill when absent.
    pub buyer_token: Option<TokenAccount>,
    pub seller: Address,
    pub seller_lamports: u64,
    pub order_address: Address,
    pub order: Option<SellOrder>,
    pub vault_authority: Address,
    pub vault_ata: Option<TokenAccount>,
    pub mint: Address,
}

/// The accounts of a fill are those of one order: both records exist, and the
/// seller, token, vault authority and balances are the ones the order names.
pub open spec fn fill_accounts_match(ctx: FillSellOrder, vault_pda: Option<Seq<u8>>) -> bool {
    &&& ctx.order is Some
    &&& ctx.vault_ata is Some
    &&& ctx.order.unwrap().seller@ == ctx.seller@
    &&& ctx.order.unwrap().mint@ == ctx.mint@
    &&& vault_pda == Some(ctx.vault_authority@)
    &&& ctx.vault_ata.unwrap().holds(ctx.mint, ctx.vault_authority)
    &&& usable_for(ctx.buyer_token, ctx.mint, ctx.buyer)
}

/// Why a fill of `qty` fails, given the vault authority re-derived from the
/// order's stored bump; `None` when it succeeds.
pub open spec fn fill_error(ctx: FillSellOrder, vault_pda: Option<Seq<u8>>, qty: u64) -> Option<EnergyError> {
    if qty == 0 {
        Some(EnergyError::InvalidAmount)
    } else if ctx.order is None || ctx.vault_ata is None {
        Some(EnergyError::MissingAccount)
    } else if !fill_accounts_match(ctx, vault_pda) {
        Some(EnergyError::Unauthorized)
    } else if fill_order(ctx.order.unwrap(), qty) is Err {
        Some(fill_order(ctx.order.unwrap(), qty)->Err_0)
    } else if qty * ctx.order.unwrap().price_lamports_per_token > u64::MAX {
        Some(EnergyError::MathOverflow)
    } else if ctx.buyer_lamports < qty * ctx.order.unwrap().price_lamports_per_token
        || ctx.vault_ata.unwrap().amount < qty {
        Some(EnergyError::InsufficientFunds)
    } else if ctx.seller_lamports + qty * ctx.order.unwrap().price_lamports_per_token > u64::MAX
        || balance_of(ctx.buyer_token) + qty > u64::MAX {
        Some(EnergyError::MathOverflow)
    } else {
        None
    }
}

/// The accounts after a fill of `qty`: the buyer paid `qty` times the price to
/// the seller, `qty` units moved from the vault to the buyer, and the order
/// took the step `fill_order` gives.
pub open spec fn filled(ctx: FillSellOrder, qty: u64) -> FillSellOrder {
    let cost = qty * ctx.order.unwrap().price_lamports_per_token;
    FillSellOrder {
        buyer_lamports: (ctx.buyer_lamports - cost) as u64,
        seller_lamports: (ctx.seller_lamports + cost) as u64,
        buyer_token: credited(ctx.buyer_token, ctx.mint, ctx.buyer, qty),
        vault_ata: Some(TokenAccount { amount: (ctx.vault_ata.unwrap().amount - qty) as u64, ..ctx.vault_ata.unwrap() }),
        order: Some(fill_order(ctx.order.unwrap(), qty)->Ok_0),
        ..ctx
    }
}

/// A fill, given the vault authority re-derived from the order's stored bump.
pub fn apply_fill_sell_order(ctx: &mut FillSellOrder, vault_pda: Option<Address>, qty: u64) -> (r: Result<u64, EnergyError>)
    ensures
        ({
            let e = fill_error(*old(ctx), address_view(vault_pda), qty);
            &&& r is Ok <==> e is None
            &&& r is Err ==> r == Err::<u64, EnergyError>(e.unwrap()) && *final(ctx) == *old(ctx)
            &&& r is Ok ==> *final(ctx) == filled(*old(ctx), qty)
        }),
        r is Ok ==> r == Ok::<u64, EnergyError>((qty * old(ctx).order.unwrap().price_lamports_per_token) as u64),
        r is Ok && escrow_consistent(old(ctx).order.unwrap(), old(ctx).vault_ata.unwrap())
            ==> escrow_consistent(final(ctx).order.unwrap(), final(ctx).vault_ata.unwrap()),
{
    if qty == 0 {
        return Err(EnergyError::InvalidAmount);
    }
    let order = match ctx.order {
        Some(o) => o,
        None => {
            return Err(EnergyError::MissingAccount);
        },
    };
    let vault = match ctx.vault_ata {
        Some(v) => v,
        None => {
            return Err(EnergyError::MissingAccount);
        },
    };
    let authority_ok = match vault_pda {
        Some(a) => a.same(&ctx.vault_authority),
        None => false,
    };
    if !order.seller.same(&ctx.seller) || !order.mint.same(&ctx.mint) || !authority_ok
        || !vault.is_for(&ctx.mint, &ctx.vault_authority) || !check_usable(&ctx.buyer_token, &ctx.mint, &ctx.buyer) {
        return Err(EnergyError::Unauthorized);
    }
    if !order.active {
        return Err(EnergyError::InactiveOrder);
    }
    if qty > order.amount_remaining {
        return Err(EnergyError::InsufficientOrderAmount);
    }
    let cost = match qty.checked_mul(order.price_lamports_per_token) {
        Some(c) => c,
        None => {
            return Err(EnergyError::MathOverflow);
        },
    };
    if ctx.buyer_lamports < cost || vault.amount < qty {
        return Err(EnergyError::InsufficientFunds);
    }
    let seller_lamports = match ctx.seller_lamports.checked_add(cost) {
        Some(l) => l,
        None => {
            return Err(EnergyError::MathOverflow);
        },
    };
    let buyer_token = match credit(&ctx.buyer_token, &ctx.mint, &ctx.buyer, qty) {
        Some(b) => b,
        None => {
            return Err(EnergyError::MathOverflow);
        },
    };
    ctx.buyer_lamports = ctx.buyer_lamports - cost;
    ctx.seller_lamports = seller_lamports;
    ctx.vault_ata = Some(TokenAccount { amount: vault.amount - qty, ..vault });
    ctx.buyer_token = buyer_token;
    let remaining = order.amount_remaining - qty;
    ctx.order = Some(SellOrder { amount_remaining: remaining, active: remaining != 0, ..order });
    Ok(cost)
}

/// A buyer fills `qty` units of an active order at its fixed price: the cost
/// (checked against overflow) is paid to the seller, and the tokens leave the
/// vault under the authority re-derived from `("vault-authority", order)`
/// and the stored bump. Either every balance moves or none does. Returns the
/// cost paid.
pub fn fill_sell_order(ctx: &mut FillSellOrder, program_id: &Address, qty: u64) -> (r: Result<u64, EnergyError>)
    ensures
        ({
            let vault_pda = match old(ctx).order {
                Some(o) => created_program_address(with_bump(vault_authority_seeds(old(ctx).order_address@), o.vault_auth_bump), program_id@),
                None => None,
            };
            let e = fill_error(*old(ctx), vault_pda, qty);
            &&& r is Ok <==> e is None
            &&& r is Err ==> r == Err::<u64, EnergyError>(e.unwrap()) && *final(ctx) == *old(ctx)
            &&& r is Ok ==> *final(ctx) == filled(*old(ctx), qty)
            &&& qty > 0 && fill_accounts_match(*old(ctx), vault_pda) && old(ctx).order.unwrap().active
                && qty > old(ctx).order.unwrap().amount_remaining
                ==> r == Err::<u64, EnergyError>(EnergyError::InsufficientOrderAmount)
        }),
        qty == 0 ==> r == Err::<u64, EnergyError>(EnergyError::InvalidAmount) && *final(ctx) == *old(ctx),
        r is Ok ==> final(ctx).order.unwrap().amount_remaining == old(ctx).order.unwrap().amount_remaining - qty,
        r is Ok ==> final(ctx).buyer_lamports == old(ctx).buyer_lamports - qty * old(ctx).order.unwrap().price_lamports_per_token,
        r is Ok && escrow_consistent(old(ctx).order.unwrap(), old(ctx).vault_ata.unwrap())
            ==> escrow_consistent(final(ctx).order.unwrap(), final(ctx).vault_ata.unwrap()),
{
    let vault_pda = match ctx.order {
        Some(o) => {
            let mut seeds = vault_authority_seed_vec(&ctx.order_address);
            push_bump(&mut seeds, o.vault_auth_bump);
            create_program_address(&seeds, program_id)
        },
        None => None,
    };
    apply_fill_sell_order(ctx, vault_pda, qty)
}

/// The accounts of a cancellation: the seller, the order and its vault (both
/// closed by it), the vault authority, the seller's balance and the token.
#[derive(Debug, Clone, Copy)]
pub struct CancelSellOrder {
    /// The signer; must be the order's seller.
    pub seller: Address,
    pub order_address: Address,
    pub order: Option<SellOrder>,
    pub vault_authority: Address,
    pub vault_ata: Option<TokenAccount>,
    pub seller_token: TokenAccount,
    pub mint: Address,
}

/// Why a cancellation fails, given the vault authority re-derived from the
/// order's stored bump; `None` when it succeeds.
pub open spec fn cancel_error(ctx: CancelSellOrder, vault_pda: Option<Seq<u8>>) -> Option<EnergyError> {
    if ctx.order is None || ctx.vault_ata is None {
        Some(EnergyError::MissingAccount)
    } else if ctx.order.unwrap().seller@ != ctx.seller@ || ctx.order.unwrap().mint@ != ctx.mint@
        || vault_pda != Some(ctx.vault_authority@)
        || !ctx.vault_ata.unwrap().holds(ctx.mint, ctx.vault_authority)
        || !ctx.seller_token.holds(ctx.mint, ctx.seller) {
        Some(EnergyError::Unauthorized)
    } else if ctx.seller_token.amount + ctx.vault_ata.unwrap().amount > u64::MAX {
        Some(EnergyError::MathOverflow)
    } else {
        None
    }
}

/// The accounts after a cancellation: the vault's whole balance is back with
/// the seller, and neither the vault nor the order exists any more.
pub open spec fn cancelled(ctx: CancelSellOrder) -> CancelSellOrder {
    CancelSellOrder {
        seller_token: TokenAccount {
            amount: (ctx.seller_token.amount + ctx.vault_ata.unwrap().amount) as u64,
            ..ctx.seller_token
        },
        order: None,
        vault_ata: None,
        ..ctx
    }
}

/// A cancellation, given the vault authority re-derived from the order's
/// stored bump. Returns the number of units given back to the seller.
pub fn apply_cancel_sell_order(ctx: &mut CancelSellOrder, vault_pda: Option<Address>) -> (r: Result<u64, EnergyError>)
    ensures
        ({
            let e = cancel_error(*old(ctx), address_view(vault_pda));
            &&& r is Ok <==> e is None
            &&& r is Err ==> r == Err::<u64, EnergyError>(e.unwrap()) && *final(ctx) == *old(ctx)
            &&& r is Ok ==> r == Ok::<u64, EnergyError>(old(ctx).vault_ata.unwrap().amount)
                && *final(ctx) == cancelled(*old(ctx))
        }),
{
    let order = match ctx.order {
        Some(o) => o,
        None => {
            return Err(EnergyError::MissingAccount);
        },
    };
    let vault = match ctx.vault_ata {
        Some(v) => v,
        None => {
            return Err(EnergyError::MissingAccount);
        },
    };
    let authority_ok = match vault_pda {
        Some(a) => a.same(&ctx.vault_authority),
        None => false,
    };
    if !order.seller.same(&ctx.seller) || !order.mint.same(&ctx.mint) || !authority_ok
        || !vault.is_for(&ctx.mint, &ctx.vault_authority) || !ctx.seller_token.is_for(&ctx.mint, &ctx.seller) {
        return Err(EnergyError::Unauthorized);
    }
    let returned = vault.amount;
    let balance = match ctx.seller_token.amount.checked_add(returned) {
        Some(b) => b,
        None => {
            return Err(EnergyError::MathOverflow);
        },
    };
    if returned > 0 {
        ctx.seller_token.amount = balance;
    }
    ctx.vault_ata = None;
    ctx.order = None;
    Ok(returned)
}

/// The seller cancels an order: whatever the vault still holds goes back to
/// the seller under the re-derived vault authority, and the vault and the
/// order are closed. An order already filled in full may still be cancelled;
/// it then only closes the empty records. Returns the units given back.
pub fn cancel_sell_order(ctx: &mut CancelSellOrder, program_id: &Address) -> (r: Result<u64, EnergyError>)
    ensures
        ({
            let vault_pda = match old(ctx).order {
                Some(o) => created_program_address(with_bump(vault_authority_seeds(old(ctx).order_address@), o.vault_auth_bump), program_id@),
                None => None,
            };
            let e = cancel_error(*old(ctx), vault_pda);
            &&& r is Ok <==> e is None
            &&& r is Err ==> r == Err::<u64, EnergyError>(e.unwrap()) && *final(ctx) == *old(ctx)
            &&& r is Ok ==> r == Ok::<u64, EnergyError>(old(ctx).vault_ata.unwrap().amount)
                && *final(ctx) == cancelled(*old(ctx))
        }),
        r is Ok ==> final(ctx).order is None && final(ctx).vault_ata is None,
{
    let vault_pda = match ctx.order {
        Some(o) => {
            let mut seeds = vault_authority_seed_vec(&ctx.order_address);
            push_bump(&mut seeds, o.vault_auth_bump);
            create_program_address(&seeds, program_id)
        },
        None => None,
    };
    apply_cancel_sell_order(ctx, vault_pda)
}

} // verus!
