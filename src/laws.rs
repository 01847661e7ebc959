use crate::market::{
    cancel_error, cancelled, create_error, created, escrow_consistent, fill_order, CancelSellOrder,
    CreateSellOrder, SellOrder,
};
use crate::token::TokenAccount;
use vstd::prelude::*;

verus! {

/// The order after a sequence of fill attempts against it, taken one after
/// another: each either commits (`fill_order` gives `Ok`) or is refused and
/// leaves the order as it was.
pub open spec fn fill_all(order: SellOrder, qtys: Seq<u64>) -> SellOrder
    decreases qtys.len(),
{
    if qtys.len() == 0 {
        order
    } else {
        let before = fill_all(order, qtys.drop_last());
        match fill_order(before, qtys.last()) {
            Ok(after) => after,
            Err(_) => before,
        }
    }
}

/// The total quantity of the fill attempts in `qtys` that committed.
pub open spec fn committed(order: SellOrder, qtys: Seq<u64>) -> int
    decreases qtys.len(),
{
    if qtys.len() == 0 {
        0
    } else {
        let before = fill_all(order, qtys.drop_last());
        committed(order, qtys.drop_last()) + if fill_order(before, qtys.last()) is Ok {
            qtys.last() as int
        } else {
            0
        }
    }
}

/// Whatever fills are attempted against an order, in whatever order they are
/// serialised, the committed quantities and what remains add up to what the
/// order offered: the fills never take more than the order's amount. An
/// order with nothing left stays inactive throughout.
pub proof fn lemma_fills_never_overdraw(order: SellOrder, qtys: Seq<u64>)
    ensures
        committed(order, qtys) + fill_all(order, qtys).amount_remaining == order.amount_remaining,
        committed(order, qtys) <= order.amount_remaining,
        (order.amount_remaining == 0 ==> !order.active)
            ==> (fill_all(order, qtys).amount_remaining == 0 ==> !fill_all(order, qtys).active),
    decreases qtys.len(),
{
    if qtys.len() > 0 {
        lemma_fills_never_overdraw(order, qtys.drop_last());
    }
}

/// Of two fills against the same order whose quantities together exceed
/// what it has left, taken one after the other as the ledger serialises
/// them, never both commit: once the first has, the second is refused; and
/// when the first is within what an active order offers, it is the one
/// that commits.
pub proof fn lemma_joint_overdraw_refused(order: SellOrder, q1: u64, q2: u64)
    requires
        q1 + q2 > order.amount_remaining,
    ensures
        fill_order(order, q1) is Ok ==> fill_order(fill_order(order, q1)->Ok_0, q2) is Err,
        order.active && 0 < q1 <= order.amount_remaining ==> fill_order(order, q1) is Ok,
{
}

/// A fill keeps an order and its vault in agreement: when the vault held what
/// the order offered, after `qty` units left both, it still does.
pub proof fn lemma_fill_keeps_escrow(order: SellOrder, vault: TokenAccount, qty: u64)
    requires
        escrow_consistent(order, vault),
        fill_order(order, qty) is Ok,
    ensures
        escrow_consistent(fill_order(order, qty)->Ok_0, TokenAccount { amount: (vault.amount - qty) as u64, ..vault }),
{
}

/// An order created and then cancelled at once gives the seller back every
/// unit it escrowed, and leaves neither an order nor a vault behind.
pub proof fn lemma_create_then_cancel(
    c: CreateSellOrder,
    order_pda: Option<(Seq<u8>, u8)>,
    vault_pda: Option<(Seq<u8>, u8)>,
    order_nonce: u64,
    amount: u64,
    price: u64,
)
    requires
        create_error(c, order_pda, vault_pda, amount) is None,
    ensures
        ({
            let after = created(c, order_pda.unwrap().1, vault_pda.unwrap().1, order_nonce, amount, price);
            let k = CancelSellOrder {
                seller: c.seller,
                order_address: c.order_address,
                order: after.order,
                vault_authority: c.vault_authority,
                vault_ata: after.vault_ata,
                seller_token: after.seller_token,
                mint: c.mint,
            };
            &&& cancel_error(k, Some(c.vault_authority@)) is None
            &&& after.vault_ata.unwrap().amount == amount
            &&& cancelled(k).seller_token.amount == c.seller_token.amount
            &&& cancelled(k).order is None
            &&& cancelled(k).vault_ata is None
        }),
{
}

} // verus!
