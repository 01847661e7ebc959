use anchor_lang::prelude::Pubkey;
use vstd::prelude::*;

verus! {

/// A 32-byte account address (a public key or a program-derived address).
#[derive(Debug, Clone, Copy)]
pub struct Address {
    pub bytes: [u8; 32],
}

impl View for Address {
    type V = Seq<u8>;

    open spec fn view(&self) -> Seq<u8> {
        self.bytes@
    }
}

impl Address {
    /// The address with these 32 bytes.
    pub fn new(bytes: [u8; 32]) -> (r: Address)
        ensures
            r.bytes == bytes,
    {
        Address { bytes }
    }

    /// Whether two addresses are the same account: byte for byte equal.
    pub fn same(&self, other: &Address) -> (r: bool)
        ensures
            r == (self@ == other@),
    {
        let mut i: usize = 0;
        while i < 32
            invariant
                0 <= i <= 32,
                self@.len() == 32,
                other@.len() == 32,
                forall|j: int| 0 <= j < i ==> self@[j] == other@[j],
            decreases 32 - i,
        {
            if self.bytes[i] != other.bytes[i] {
                return false;
            }
            i = i + 1;
        }
        assert(self@ =~= other@);
        true
    }

    /// The address as a byte vector, for use as a seed.
    pub fn to_seed(&self) -> (r: Vec<u8>)
        ensures
            r@ == self@,
    {
        let mut v: Vec<u8> = Vec::new();
        let mut i: usize = 0;
        while i < 32
            invariant
                0 <= i <= 32,
                self@.len() == 32,
                v@ == self@.subrange(0, i as int),
            decreases 32 - i,
        {
            v.push(self.bytes[i]);
            i = i + 1;
            assert(v@ =~= self@.subrange(0, i as int));
        }
        assert(self@.subrange(0, 32) =~= self@);
        v
    }
}

impl PartialEq for Address {
    fn eq(&self, other: &Address) -> (r: bool) {
        self.same(other)
    }
}

impl vstd::std_specs::cmp::PartialEqSpecImpl for Address {
    open spec fn obeys_eq_spec() -> bool {
        true
    }

    open spec fn eq_spec(&self, other: &Address) -> bool {
        self@ == other@
    }
}

impl Eq for Address {}

/// The `k` low-order bytes of `n`, least significant first.
pub open spec fn le_bytes(n: nat, k: nat) -> Seq<u8>
    decreases k,
{
    if k == 0 {
        Seq::empty()
    } else {
        seq![(n % 256) as u8] + le_bytes(n / 256, (k - 1) as nat)
    }
}

/// The eight little-endian bytes of `n`, as `u64::to_le_bytes` lays them out.
pub fn u64_le_bytes(n: u64) -> (r: Vec<u8>)
    ensures
        r@ == le_bytes(n as nat, 8),
{
    let mut v: Vec<u8> = Vec::new();
    let mut x: u64 = n;
    let mut i: usize = 0;
    while i < 8
        invariant
            0 <= i <= 8,
            le_bytes(n as nat, 8) == v@ + le_bytes(x as nat, (8 - i) as nat),
        decreases 8 - i,
    {
        let ghost old_v = v@;
        let b: u8 = (x % 256) as u8;
        v.push(b);
        assert(le_bytes(x as nat, (8 - i) as nat) == seq![b] + le_bytes((x / 256) as nat, (8 - i - 1) as nat));
        assert(old_v + (seq![b] + le_bytes((x / 256) as nat, (8 - i - 1) as nat)) =~= v@ + le_bytes((x / 256) as nat, (8 - i - 1) as nat));
        x = x / 256;
        i = i + 1;
    }
    assert(v@ + le_bytes(x as nat, 0) =~= v@);
    v
}

/// The seed tag of an order address: the bytes of `"order"`.
pub open spec fn order_tag() -> Seq<u8> {
    seq![111u8, 114, 100, 101, 114]
}

/// The seed tag of a vault authority: the bytes of `"vault-authority"`.
pub open spec fn vault_tag() -> Seq<u8> {
    seq![118u8, 97, 117, 108, 116, 45, 97, 117, 116, 104, 111, 114, 105, 116, 121]
}

/// The seed tag of the mint authority: the bytes of `"mint-authority"`.
pub open spec fn mint_tag() -> Seq<u8> {
    seq![109u8, 105, 110, 116, 45, 97, 117, 116, 104, 111, 114, 105, 116, 121]
}

/// Seeds of the order of `seller` for `mint` with a caller-chosen `nonce`.
pub open spec fn order_seeds(seller: Seq<u8>, mint: Seq<u8>, nonce: u64) -> Seq<Seq<u8>> {
    seq![order_tag(), seller, mint, le_bytes(nonce as nat, 8)]
}

/// Seeds of the authority that alone controls the escrow vault of `order`.
pub open spec fn vault_authority_seeds(order: Seq<u8>) -> Seq<Seq<u8>> {
    seq![vault_tag(), order]
}

/// Seeds of the system-wide mint authority.
pub open spec fn mint_authority_seeds() -> Seq<Seq<u8>> {
    seq![mint_tag()]
}

/// The byte strings that a vector of seeds holds.
pub open spec fn seeds_view(seeds: Seq<Vec<u8>>) -> Seq<Seq<u8>> {
    seeds.map_values(|s: Vec<u8>| s@)
}

/// `seeds` followed by the one-byte bump seed.
pub open spec fn with_bump(seeds: Seq<Seq<u8>>, bump: u8) -> Seq<Seq<u8>> {
    seeds.push(seq![bump])
}

/// The seeds of an order's address, as byte vectors.
pub fn order_seed_vec(seller: &Address, mint: &Address, nonce: u64) -> (r: Vec<Vec<u8>>)
    ensures
        seeds_view(r@) == order_seeds(seller@, mint@, nonce),
{
    let tag: Vec<u8> = vec![111u8, 114, 100, 101, 114];
    assert(tag@ =~= order_tag());
    let mut r: Vec<Vec<u8>> = Vec::new();
    r.push(tag);
    r.push(seller.to_seed());
    r.push(mint.to_seed());
    r.push(u64_le_bytes(nonce));
    assert(seeds_view(r@) =~= order_seeds(seller@, mint@, nonce));
    r
}

/// The seeds of an order's vault authority, as byte vectors.
pub fn vault_authority_seed_vec(order: &Address) -> (r: Vec<Vec<u8>>)
    ensures
        seeds_view(r@) == vault_authority_seeds(order@),
{
    let tag: Vec<u8> = vec![118u8, 97, 117, 108, 116, 45, 97, 117, 116, 104, 111, 114, 105, 116, 121];
    assert(tag@ =~= vault_tag());
    let mut r: Vec<Vec<u8>> = Vec::new();
    r.push(tag);
    r.push(order.to_seed());
    assert(seeds_view(r@) =~= vault_authority_seeds(order@));
    r
}

/// The seeds of the mint authority, as byte vectors.
pub fn mint_authority_seed_vec() -> (r: Vec<Vec<u8>>)
    ensures
        seeds_view(r@) == mint_authority_seeds(),
{
    let tag: Vec<u8> = vec![109u8, 105, 110, 116, 45, 97, 117, 116, 104, 111, 114, 105, 116, 121];
    assert(tag@ =~= mint_tag());
    let mut r: Vec<Vec<u8>> = Vec::new();
    r.push(tag);
    assert(seeds_view(r@) =~= mint_authority_seeds());
    r
}

/// `seeds` with the one-byte bump seed appended.
pub fn push_bump(seeds: &mut Vec<Vec<u8>>, bump: u8)
    ensures
        seeds_view(final(seeds)@) == with_bump(seeds_view(old(seeds)@), bump),
{
    let b: Vec<u8> = vec![bump];
    assert(b@ =~= seq![bump]);
    seeds.push(b);
    assert(seeds_view(final(seeds)@) =~= with_bump(seeds_view(old(seeds)@), bump));
}

/// The address and bump seed that the program-address search finds for
/// `seeds` under `program_id`, if any.
pub uninterp spec fn found_program_address(seeds: Seq<Seq<u8>>, program_id: Seq<u8>) -> Option<(Seq<u8>, u8)>;

/// The program-derived address of `seeds` (bump included) under `program_id`,
/// if those seeds give one.
pub uninterp spec fn created_program_address(seeds: Seq<Seq<u8>>, program_id: Seq<u8>) -> Option<Seq<u8>>;

/// Relies on `Pubkey::try_find_program_address`: its result depends on the
/// seeds and the program id alone, and an address it finds is the one that
/// `Pubkey::create_program_address` gives for the seeds followed by the
/// one-byte bump seed it returns.
#[verifier::external_body]
pub(crate) fn find_program_address(seeds: &Vec<Vec<u8>>, program_id: &Address) -> (r: Option<(Address, u8)>)
    ensures
        r.is_some() == found_program_address(seeds_view(seeds@), program_id@).is_some(),
        r.is_some() ==> found_program_address(seeds_view(seeds@), program_id@) == Some((r.unwrap().0@, r.unwrap().1)),
        r.is_some() ==> created_program_address(with_bump(seeds_view(seeds@), r.unwrap().1), program_id@) == Some(r.unwrap().0@),
{
    let slices: Vec<&[u8]> = seeds.iter().map(Vec::as_slice).collect();
    match Pubkey::try_find_program_address(&slices, &Pubkey::new_from_array(program_id.bytes)) {
        Some((key, bump)) => Some((Address { bytes: key.to_bytes() }, bump)),
        None => None,
    }
}

/// Relies on `Pubkey::create_program_address`: its result depends on the
/// seeds and the program id alone.
#[verifier::external_body]
pub(crate) fn create_program_address(seeds: &Vec<Vec<u8>>, program_id: &Address) -> (r: Option<Address>)
    ensures
        r.is_some() == created_program_address(seeds_view(seeds@), program_id@).is_some(),
        r.is_some() ==> created_program_address(seeds_view(seeds@), program_id@) == Some(r.unwrap()@),
{
    let slices: Vec<&[u8]> = seeds.iter().map(Vec::as_slice).collect();
    match Pubkey::create_program_address(&slices, &Pubkey::new_from_array(program_id.bytes)) {
        Ok(key) => Some(Address { bytes: key.to_bytes() }),
        Err(_) => None,
    }
}

} // verus!
