use crate::address::{
    find_program_address, found_program_address, mint_authority_seed_vec, mint_authority_seeds,
    Address,
};
use crate::error::EnergyError;
use vstd::prelude::*;

verus! {

/// The singleton configuration: the energy token's mint and the oracle that
/// alone may mint it.
#[derive(Debug, Clone, Copy)]
pub struct State {
    pub mint: Address,
    pub oracle: Address,
}

/// A balance of one token: which mint it holds, who owns it, how many units.
#[derive(Debug, Clone, Copy)]
pub struct TokenAccount {
    pub mint: Address,
    pub owner: Address,
    pub amount: u64,
}

impl TokenAccount {
    /// Whether this balance holds `mint` and belongs to `owner`.
    pub open spec fn holds(self, mint: Address, owner: Address) -> bool {
        self.mint@ == mint@ && self.owner@ == owner@
    }

    /// Checks that this balance holds `mint` and belongs to `owner`.
    pub fn is_for(&self, mint: &Address, owner: &Address) -> (r: bool)
        ensures
            r == self.holds(*mint, *owner),
    {
        self.mint.same(mint) && self.owner.same(owner)
    }
}

/// The balance a possibly absent record holds: nothing when it is absent.
pub open spec fn balance_of(acct: Option<TokenAccount>) -> nat {
    match acct {
        Some(a) => a.amount as nat,
        None => 0,
    }
}

/// A balance record that may not exist yet is usable for `mint` and `owner`:
/// it is absent (and will be created) or it holds that mint for that owner.
pub open spec fn usable_for(acct: Option<TokenAccount>, mint: Address, owner: Address) -> bool {
    match acct {
        Some(a) => a.holds(mint, owner),
        None => true,
    }
}

/// The record after `amount` units were credited to it, created for `mint`
/// and `owner` if it was absent.
pub open spec fn credited(acct: Option<TokenAccount>, mint: Address, owner: Address, amount: u64) -> Option<TokenAccount> {
    match acct {
        Some(a) => Some(TokenAccount { amount: (a.amount + amount) as u64, ..a }),
        None => Some(TokenAccount { mint, owner, amount }),
    }
}

/// Checks that a possibly absent record is usable for `mint` and `owner`.
pub fn check_usable(acct: &Option<TokenAccount>, mint: &Address, owner: &Address) -> (r: bool)
    ensures
        r == usable_for(*acct, *mint, *owner),
{
    match acct {
        Some(a) => a.is_for(mint, owner),
        None => true,
    }
}

/// Credits `amount` units to a possibly absent record, creating it for
/// `mint` and `owner` if needed; `None` if the balance would overflow.
pub fn credit(acct: &Option<TokenAccount>, mint: &Address, owner: &Address, amount: u64) -> (r: Option<Option<TokenAccount>>)
    ensures
        r is Some <==> balance_of(*acct) + amount <= u64::MAX,
        r is Some ==> r.unwrap() == credited(*acct, *mint, *owner, amount),
{
    match acct {
        Some(a) => match a.amount.checked_add(amount) {
            Some(n) => Some(Some(TokenAccount { amount: n, ..*a })),
            None => None,
        },
        None => Some(Some(TokenAccount { mint: *mint, owner: *owner, amount })),
    }
}

/// The accounts of setup: the configuration record and the token's mint.
#[derive(Debug, Clone, Copy)]
pub struct Initialize {
    pub state: State,
    pub mint: Address,
    /// The signer that pays for the records.
    pub authority: Address,
}

/// Setup, idempotent: records the mint it is called with and (re)registers
/// `oracle` as the one identity allowed to mint.
pub fn initialize(ctx: &mut Initialize, oracle: Address) -> (r: Result<(), EnergyError>)
    ensures
        r is Ok,
        final(ctx).state.mint == old(ctx).mint,
        final(ctx).state.oracle == oracle,
        final(ctx).mint == old(ctx).mint,
        final(ctx).authority == old(ctx).authority,
{
    ctx.state.mint = ctx.mint;
    ctx.state.oracle = oracle;
    Ok(())
}

/// The accounts of a mint: the configuration, the mint with its total supply,
/// the derived mint authority, the signing oracle and the recipient's balance.
#[derive(Debug, Clone, Copy)]
pub struct MintEnergy {
    pub state: State,
    pub mint: Address,
    pub supply: u64,
    pub mint_authority: Address,
    /// The signer of the mint.
    pub oracle: Address,
    pub recipient: Address,
    /// The recipient's balance; created by the mint when absent.
    pub recipient_ata: Option<TokenAccount>,
}

/// Why a mint of `amount` fails, given the mint authority that derivation
/// gave (`None` when no address exists for its seeds); `None` when it succeeds.
pub open spec fn mint_error(ctx: MintEnergy, authority: Option<Seq<u8>>, amount: u64) -> Option<EnergyError> {
    if amount == 0 {
        Some(EnergyError::InvalidAmount)
    } else if ctx.state.oracle@ != ctx.oracle@ || ctx.state.mint@ != ctx.mint@
        || !usable_for(ctx.recipient_ata, ctx.mint, ctx.recipient) {
        Some(EnergyError::Unauthorized)
    } else if authority is None {
        Some(EnergyError::InvalidSeeds)
    } else if authority.unwrap() != ctx.mint_authority@ {
        Some(EnergyError::Unauthorized)
    } else if ctx.supply + amount > u64::MAX || balance_of(ctx.recipient_ata) + amount > u64::MAX {
        Some(EnergyError::MathOverflow)
    } else {
        None
    }
}

/// The accounts after `amount` units were minted to the recipient.
pub open spec fn minted(ctx: MintEnergy, amount: u64) -> MintEnergy {
    MintEnergy {
        supply: (ctx.supply + amount) as u64,
        recipient_ata: credited(ctx.recipient_ata, ctx.mint, ctx.recipient, amount),
        ..ctx
    }
}

/// A mint, given the mint authority derived from its seeds.
pub fn apply_mint_energy(ctx: &mut MintEnergy, authority: Option<Address>, amount: u64) -> (r: Result<(), EnergyError>)
    ensures
        ({
            let e = mint_error(*old(ctx), match authority { Some(a) => Some(a@), None => None }, amount);
            &&& r is Ok <==> e is None
            &&& r is Err ==> r == Err::<(), EnergyError>(e.unwrap()) && *final(ctx) == *old(ctx)
            &&& r is Ok ==> *final(ctx) == minted(*old(ctx), amount)
        }),
{
    if amount == 0 {
        return Err(EnergyError::InvalidAmount);
    }
    if !ctx.state.oracle.same(&ctx.oracle) || !ctx.state.mint.same(&ctx.mint)
        || !check_usable(&ctx.recipient_ata, &ctx.mint, &ctx.recipient) {
        return Err(EnergyError::Unauthorized);
    }
    match authority {
        None => {
            return Err(EnergyError::InvalidSeeds);
        },
        Some(a) => {
            if !a.same(&ctx.mint_authority) {
                return Err(EnergyError::Unauthorized);
            }
        },
    }
    let supply = match ctx.supply.checked_add(amount) {
        Some(s) => s,
        None => {
            return Err(EnergyError::MathOverflow);
        },
    };
    let recipient_ata = match credit(&ctx.recipient_ata, &ctx.mint, &ctx.recipient, amount) {
        Some(b) => b,
        None => {
            return Err(EnergyError::MathOverflow);
        },
    };
    ctx.supply = supply;
    ctx.recipient_ata = recipient_ata;
    Ok(())
}

/// The oracle mints `amount` units (one unit is one kilowatt-hour) to the
/// recipient's balance (created if absent), signed for by the mint authority derived from its
/// fixed seeds under `program_id`. Only the registered oracle may mint;
/// any failure leaves every balance unchanged.
pub fn mint_energy(ctx: &mut MintEnergy, program_id: &Address, amount: u64) -> (r: Result<(), EnergyError>)
    ensures
        ({
            let found = found_program_address(mint_authority_seeds(), program_id@);
            let e = mint_error(*old(ctx), match found { Some(f) => Some(f.0), None => None }, amount);
            &&& r is Ok <==> e is None
            &&& r is Err ==> r == Err::<(), EnergyError>(e.unwrap()) && *final(ctx) == *old(ctx)
            &&& r is Ok ==> *final(ctx) == minted(*old(ctx), amount)
        }),
        r is Ok ==> balance_of(final(ctx).recipient_ata) == balance_of(old(ctx).recipient_ata) + amount,
        r is Ok ==> final(ctx).supply == old(ctx).supply + amount,
        amount > 0 && old(ctx).oracle@ != old(ctx).state.oracle@ ==> r == Err::<(), EnergyError>(EnergyError::Unauthorized) && *final(ctx) == *old(ctx),
{
    let seeds = mint_authority_seed_vec();
    let authority = match find_program_address(&seeds, program_id) {
        Some((a, _bump)) => Some(a),
        None => None,
    };
    apply_mint_energy(ctx, authority, amount)
}

/// The accounts of a burn: the mint with its total supply, the signing user
/// and the user's balance.
#[derive(Debug, Clone, Copy)]
pub struct BurnEnergy {
    pub mint: Address,
    pub supply: u64,
    /// The signer of the burn.
    pub user: Address,
    pub user_ata: TokenAccount,
}

/// Why a burn of `amount` fails; `None` when it succeeds.
pub open spec fn burn_error(ctx: BurnEnergy, amount: u64) -> Option<EnergyError> {
    if amount == 0 {
        Some(EnergyError::InvalidAmount)
    } else if !ctx.user_ata.holds(ctx.mint, ctx.user) {
        Some(EnergyError::Unauthorized)
    } else if ctx.user_ata.amount < amount {
        Some(EnergyError::InsufficientFunds)
    } else if ctx.supply < amount {
        Some(EnergyError::MathOverflow)
    } else {
        None
    }
}

/// A user burns `amount` units of their own balance when consuming energy.
pub fn burn_energy(ctx: &mut BurnEnergy, amount: u64) -> (r: Result<(), EnergyError>)
    ensures
        r is Ok <==> burn_error(*old(ctx), amount) is None,
        r is Err ==> r == Err::<(), EnergyError>(burn_error(*old(ctx), amount).unwrap()) && *final(ctx) == *old(ctx),
        r is Ok ==> *final(ctx) == (BurnEnergy {
            supply: (old(ctx).supply - amount) as u64,
            user_ata: TokenAccount { amount: (old(ctx).user_ata.amount - amount) as u64, ..old(ctx).user_ata },
            ..*old(ctx)
        }),
{
    if amount == 0 {
        return Err(EnergyError::InvalidAmount);
    }
    if !ctx.user_ata.is_for(&ctx.mint, &ctx.user) {
        return Err(EnergyError::Unauthorized);
    }
    if ctx.user_ata.amount < amount {
        return Err(EnergyError::InsufficientFunds);
    }
    if ctx.supply < amount {
        return Err(EnergyError::MathOverflow);
    }
    ctx.user_ata.amount = ctx.user_ata.amount - amount;
    ctx.supply = ctx.supply - amount;
    Ok(())
}

} // verus!
