//! Account addresses and deterministic sub-address ("program derived
//! address") computation.
//!
//! Every operation that references a derived record re-derives the
//! expected address from the instruction's own inputs and compares it
//! byte for byte to the account actually supplied, which defends against
//! substitution of an unrelated account.

use vstd::prelude::*;

verus! {

/// A 32-byte account address or identity on the host ledger.
#[derive(Clone, Copy, Debug, PartialEq, Eq)]
pub struct Address {
    pub bytes: [u8; 32],
}

impl View for Address {
    type V = Seq<u8>;

    open spec fn view(&self) -> Seq<u8> {
        self.bytes@
    }
}

/// True exactly when the two addresses hold the same bytes.
pub fn address_eq(a: &Address, b: &Address) -> (r: bool)
    ensures
        r == (a@ == b@),
{
    let mut i: usize = 0;
    while i < 32
        invariant
            i <= 32,
            forall|j: int| 0 <= j < i ==> a@[j] == b@[j],
        decreases 32 - i,
    {
        if a.bytes[i] != b.bytes[i] {
            assert(a@[i as int] != b@[i as int]);
            return false;
        }
        i += 1;
    }
    assert(a@ =~= b@);
    true
}

/// An address built from 32 given bytes.
pub fn address_from_bytes(d: &Vec<u8>, off: usize) -> (a: Address)
    requires
        off + 32 <= d@.len(),
    ensures
        a@ == d@.subrange(off as int, off as int + 32),
{
    let n: usize = d.len();
    let mut bytes: [u8; 32] = [0u8; 32];
    let mut i: usize = 0;
    while i < 32
        invariant
            i <= 32,
            off + 32 <= n,
            n == d@.len(),
            forall|j: int| 0 <= j < i ==> bytes@[j] == d@[off + j],
        decreases 32 - i,
    {
        bytes[i] = d[off + i];
        i += 1;
    }
    let a = Address { bytes };
    assert(a@ =~= d@.subrange(off as int, off as int + 32));
    a
}

/// Appends an address's 32 bytes to `out`.
pub fn push_address(out: &mut Vec<u8>, a: &Address)
    ensures
        final(out)@ == old(out)@ + a@,
{
    let mut i: usize = 0;
    while i < 32
        invariant
            i <= 32,
            out@ == old(out)@ + a@.subrange(0, i as int),
        decreases 32 - i,
    {
        out.push(a.bytes[i]);
        assert(out@ =~= old(out)@ + a@.subrange(0, i + 1));
        i += 1;
    }
    assert(out@ =~= old(out)@ + a@);
}

/// The generic account allocator's ("system program") identity: 32 zero
/// bytes.
pub open spec fn spec_system_program_id() -> Seq<u8> {
    Seq::new(32, |i: int| 0u8)
}

/// The generic account allocator's identity as an [`Address`].
pub fn system_program_id() -> (a: Address)
    ensures
        a@ == spec_system_program_id(),
{
    let a = Address { bytes: [0u8; 32] };
    assert(a@ =~= spec_system_program_id());
    a
}

/// The deterministic sub-address and bump value that the host's address
/// derivation primitive assigns to `seeds` under `program_id`, if any.
/// The result depends on the seeds and the program identity alone.
pub uninterp spec fn spec_derived_address(seeds: Seq<Seq<u8>>, program_id: Seq<u8>) -> Option<
    (Seq<u8>, u8),
>;

/// Relies on `solana_program::pubkey::Pubkey::try_find_program_address`:
/// a pure computation over the seed bytes and the program identity that
/// searches for the first bump value whose derived address is off the
/// ed25519 curve, and returns `None` when there are too many seeds, a
/// seed is too long, or no bump works.  A returned address is 32 bytes.
#[verifier::external_body]
pub fn find_derived_address(seeds: &Vec<Vec<u8>>, program_id: &Address) -> (r: Option<
    (Address, u8),
>)
    ensures
        match r {
            Some(p) => spec_derived_address(
                seeds@.map_values(|s: Vec<u8>| s@),
                program_id@,
            ) == Some((p.0@, p.1)),
            None => spec_derived_address(
                seeds@.map_values(|s: Vec<u8>| s@),
                program_id@,
            ) is None,
        },
{
    let seed_slices: Vec<&[u8]> = seeds.iter().map(|s| s.as_slice()).collect();
    let pid = solana_program::pubkey::Pubkey::new_from_array(program_id.bytes);
    solana_program::pubkey::Pubkey::try_find_program_address(&seed_slices, &pid).map(
        |(key, bump)| (Address { bytes: key.to_bytes() }, bump),
    )
}

/// The seed prefix of the market seed family: the bytes of
/// `"prediction_market"`.
pub open spec fn spec_market_seed_prefix() -> Seq<u8> {
    seq![112u8, 114, 101, 100, 105, 99, 116, 105, 111, 110, 95, 109, 97, 114, 107, 101, 116]
}

/// The seed prefix of the per-user prediction seed family: the bytes of
/// `"user_prediction"`.
pub open spec fn spec_user_prediction_seed_prefix() -> Seq<u8> {
    seq![117u8, 115, 101, 114, 95, 112, 114, 101, 100, 105, 99, 116, 105, 111, 110]
}

/// The derived address of the market record for a market identifier.
pub open spec fn spec_market_address(program_id: Seq<u8>, market_id: Seq<u8>) -> Option<
    (Seq<u8>, u8),
> {
    spec_derived_address(seq![spec_market_seed_prefix(), market_id], program_id)
}

/// The derived address of one voter's prediction record in one market.
pub open spec fn spec_user_prediction_address(
    program_id: Seq<u8>,
    market_key: Seq<u8>,
    voter: Seq<u8>,
) -> Option<(Seq<u8>, u8)> {
    spec_derived_address(
        seq![spec_user_prediction_seed_prefix(), market_key, voter],
        program_id,
    )
}

/// Derives the market record's address for a market identifier.
pub fn find_market_address(market_id: &[u8; 16], program_id: &Address) -> (r: Option<
    (Address, u8),
>)
    ensures
        match r {
            Some(p) => spec_market_address(program_id@, market_id@) == Some((p.0@, p.1)),
            None => spec_market_address(program_id@, market_id@) is None,
        },
{
    let mut prefix: Vec<u8> = Vec::new();
    prefix.push(112);
    prefix.push(114);
    prefix.push(101);
    prefix.push(100);
    prefix.push(105);
    prefix.push(99);
    prefix.push(116);
    prefix.push(105);
    prefix.push(111);
    prefix.push(110);
    prefix.push(95);
    prefix.push(109);
    prefix.push(97);
    prefix.push(114);
    prefix.push(107);
    prefix.push(101);
    prefix.push(116);
    assert(prefix@ =~= spec_market_seed_prefix());
    let mut id: Vec<u8> = Vec::new();
    crate::codec::push_bytes16(&mut id, market_id);
    let mut seeds: Vec<Vec<u8>> = Vec::new();
    seeds.push(prefix);
    seeds.push(id);
    assert(seeds@.map_values(|s: Vec<u8>| s@) =~= seq![spec_market_seed_prefix(), market_id@]);
    find_derived_address(&seeds, program_id)
}

/// Derives one voter's prediction record address in one market.
pub fn find_user_prediction_address(
    market_key: &Address,
    voter: &Address,
    program_id: &Address,
) -> (r: Option<(Address, u8)>)
    ensures
        match r {
            Some(p) => spec_user_prediction_address(program_id@, market_key@, voter@) == Some(
                (p.0@, p.1),
            ),
            None => spec_user_prediction_address(program_id@, market_key@, voter@) is None,
        },
{
    let mut prefix: Vec<u8> = Vec::new();
    prefix.push(117);
    prefix.push(115);
    prefix.push(101);
    prefix.push(114);
    prefix.push(95);
    prefix.push(112);
    prefix.push(114);
    prefix.push(101);
    prefix.push(100);
    prefix.push(105);
    prefix.push(99);
    prefix.push(116);
    prefix.push(105);
    prefix.push(111);
    prefix.push(110);
    assert(prefix@ =~= spec_user_prediction_seed_prefix());
    let mut market_bytes: Vec<u8> = Vec::new();
    push_address(&mut market_bytes, market_key);
    let mut voter_bytes: Vec<u8> = Vec::new();
    push_address(&mut voter_bytes, voter);
    let mut seeds: Vec<Vec<u8>> = Vec::new();
    seeds.push(prefix);
    seeds.push(market_bytes);
    seeds.push(voter_bytes);
    assert(seeds@.map_values(|s: Vec<u8>| s@) =~= seq![
        spec_user_prediction_seed_prefix(),
        market_key@,
        voter@,
    ]);
    find_derived_address(&seeds, program_id)
}

} // verus!
