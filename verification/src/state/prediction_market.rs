//! The per-market record.

use vstd::prelude::*;

use crate::addr::{push_address, Address};
use crate::codec::{
    lemma_i64_le_round_trip, lemma_u64_le_round_trip, push_i64_le, push_u64_le, read_i64_le,
    read_u64_le, spec_i64_from_le, spec_i64_le, spec_u64_from_le, spec_u64_le,
};
use crate::state::user_prediction::lemma_u64_bytes_in_range;
use crate::state::PROGRAM_VERSION;

verus! {

/// The encoded size of a [`PredictionMarket`] record: field order as
/// declared, fixed width, no padding.
pub const MARKET_RECORD_LEN: usize = 75;

/// One market: its resolver, its cumulative per-outcome vote counts and
/// staked pools, its resolution, and the end of its open window.
#[derive(Clone, Copy, Debug)]
pub struct PredictionMarket {
    pub version: u8,
    pub bump_seed: u8,
    pub resolver: Address,
    pub num_yes: u64,
    pub num_no: u64,
    pub balance_yes: u64,
    pub balance_no: u64,
    pub resolution: MarketResolution,
    pub open_until: i64,
}

/// A market's settled outcome, or `Unresolved` while votes are still
/// accepted.
#[derive(Clone, Copy, Debug, PartialEq, Eq, Structural)]
pub enum MarketResolution {
    Unresolved,
    Tie,
    Yes,
    No,
}

impl Default for MarketResolution {
    /// A market starts unresolved.
    fn default() -> (r: MarketResolution)
        ensures
            r == MarketResolution::Unresolved,
    {
        MarketResolution::Unresolved
    }
}

/// The mathematical value of a [`PredictionMarket`].
#[verifier::ext_equal]
pub struct MarketView {
    pub version: u8,
    pub bump_seed: u8,
    pub resolver: Seq<u8>,
    pub num_yes: u64,
    pub num_no: u64,
    pub balance_yes: u64,
    pub balance_no: u64,
    pub resolution: MarketResolution,
    pub open_until: i64,
}

impl View for PredictionMarket {
    type V = MarketView;

    open spec fn view(&self) -> MarketView {
        MarketView {
            version: self.version,
            bump_seed: self.bump_seed,
            resolver: self.resolver@,
            num_yes: self.num_yes,
            num_no: self.num_no,
            balance_yes: self.balance_yes,
            balance_no: self.balance_no,
            resolution: self.resolution,
            open_until: self.open_until,
        }
    }
}

/// The parameters a new market record is initialized from.
pub struct InitPredictionMarketParams {
    pub bump_seed: u8,
    pub resolver: Address,
    pub open_until: i64,
}

impl PredictionMarket {
    /// A fresh market record: current version, the given bump, resolver
    /// and closing time, zero counts and pools, unresolved.
    pub fn with_params(params: InitPredictionMarketParams) -> (m: PredictionMarket)
        ensures
            m@ == (MarketView {
                version: PROGRAM_VERSION,
                bump_seed: params.bump_seed,
                resolver: params.resolver@,
                num_yes: 0,
                num_no: 0,
                balance_yes: 0,
                balance_no: 0,
                resolution: MarketResolution::Unresolved,
                open_until: params.open_until,
            }),
    {
        let m = PredictionMarket {
            version: PROGRAM_VERSION,
            bump_seed: params.bump_seed,
            resolver: params.resolver,
            num_yes: 0,
            num_no: 0,
            balance_yes: 0,
            balance_no: 0,
            resolution: MarketResolution::Unresolved,
            open_until: params.open_until,
        };
        assert(m@ =~= (MarketView {
            version: PROGRAM_VERSION,
            bump_seed: params.bump_seed,
            resolver: params.resolver@,
            num_yes: 0,
            num_no: 0,
            balance_yes: 0,
            balance_no: 0,
            resolution: MarketResolution::Unresolved,
            open_until: params.open_until,
        }));
        m
    }
}

/// The byte a resolution is persisted as: its declaration position.
pub open spec fn spec_resolution_tag(r: MarketResolution) -> u8 {
    match r {
        MarketResolution::Unresolved => 0,
        MarketResolution::Tie => 1,
        MarketResolution::Yes => 2,
        MarketResolution::No => 3,
    }
}

/// The resolution a byte decodes to, if any.
pub open spec fn spec_resolution_from_tag(t: u8) -> Option<MarketResolution> {
    if t == 0 {
        Some(MarketResolution::Unresolved)
    } else if t == 1 {
        Some(MarketResolution::Tie)
    } else if t == 2 {
        Some(MarketResolution::Yes)
    } else if t == 3 {
        Some(MarketResolution::No)
    } else {
        None
    }
}

/// Serializes a resolution as its tag byte.
pub fn resolution_tag(r: MarketResolution) -> (t: u8)
    ensures
        t == spec_resolution_tag(r),
{
    match r {
        MarketResolution::Unresolved => 0,
        MarketResolution::Tie => 1,
        MarketResolution::Yes => 2,
        MarketResolution::No => 3,
    }
}

/// Deserializes a resolution tag byte.
pub fn resolution_from_tag(t: u8) -> (r: Option<MarketResolution>)
    ensures
        r == spec_resolution_from_tag(t),
{
    if t == 0 {
        Some(MarketResolution::Unresolved)
    } else if t == 1 {
        Some(MarketResolution::Tie)
    } else if t == 2 {
        Some(MarketResolution::Yes)
    } else if t == 3 {
        Some(MarketResolution::No)
    } else {
        None
    }
}

/// A market view whose address fields have the ledger's address width.
pub open spec fn market_view_wf(m: MarketView) -> bool {
    m.resolver.len() == 32
}

/// The persisted layout of a market record: field order as declared,
/// fixed width, little endian.
pub open spec fn spec_pack_market(m: MarketView) -> Seq<u8> {
    seq![m.version, m.bump_seed] + m.resolver + spec_u64_le(m.num_yes) + spec_u64_le(m.num_no)
        + spec_u64_le(m.balance_yes) + spec_u64_le(m.balance_no) + seq![
        spec_resolution_tag(m.resolution),
    ] + spec_i64_le(m.open_until)
}

/// The market record read back from the leading bytes of `d`, if they
/// decode; trailing bytes are ignored.
pub open spec fn spec_unpack_market(d: Seq<u8>) -> Option<MarketView> {
    if d.len() < MARKET_RECORD_LEN {
        None
    } else {
        match spec_resolution_from_tag(d[66]) {
            None => None,
            Some(resolution) => Some(
                MarketView {
                    version: d[0],
                    bump_seed: d[1],
                    resolver: d.subrange(2, 34),
                    num_yes: spec_u64_from_le(d.subrange(34, 42)) as u64,
                    num_no: spec_u64_from_le(d.subrange(42, 50)) as u64,
                    balance_yes: spec_u64_from_le(d.subrange(50, 58)) as u64,
                    balance_no: spec_u64_from_le(d.subrange(58, 66)) as u64,
                    resolution,
                    open_until: spec_i64_from_le(d.subrange(67, 75)),
                },
            ),
        }
    }
}

/// Serializes a market record.
pub fn pack_market(m: &PredictionMarket) -> (r: Vec<u8>)
    ensures
        r@ == spec_pack_market(m@),
        r@.len() == MARKET_RECORD_LEN,
{
    let mut out: Vec<u8> = Vec::new();
    out.push(m.version);
    out.push(m.bump_seed);
    push_address(&mut out, &m.resolver);
    push_u64_le(&mut out, m.num_yes);
    push_u64_le(&mut out, m.num_no);
    push_u64_le(&mut out, m.balance_yes);
    push_u64_le(&mut out, m.balance_no);
    out.push(resolution_tag(m.resolution));
    push_i64_le(&mut out, m.open_until);
    assert(out@ =~= spec_pack_market(m@));
    out
}

/// Deserializes the leading bytes of `d` as a market record.
pub fn unpack_market(d: &Vec<u8>) -> (r: Option<PredictionMarket>)
    ensures
        match r {
            Some(m) => spec_unpack_market(d@) == Some(m@) && market_view_wf(m@),
            None => spec_unpack_market(d@) is None,
        },
{
    if d.len() < MARKET_RECORD_LEN {
        return None;
    }
    let resolution = match resolution_from_tag(d[66]) {
        Some(resolution) => resolution,
        None => {
            return None;
        },
    };
    let resolver = crate::addr::address_from_bytes(d, 2);
    let num_yes = read_u64_le(d, 34);
    let num_no = read_u64_le(d, 42);
    let balance_yes = read_u64_le(d, 50);
    let balance_no = read_u64_le(d, 58);
    let open_until = read_i64_le(d, 67);
    proof {
        lemma_u64_bytes_in_range(d@.subrange(34, 42));
        lemma_u64_bytes_in_range(d@.subrange(42, 50));
        lemma_u64_bytes_in_range(d@.subrange(50, 58));
        lemma_u64_bytes_in_range(d@.subrange(58, 66));
    }
    let m = PredictionMarket {
        version: d[0],
        bump_seed: d[1],
        resolver,
        num_yes,
        num_no,
        balance_yes,
        balance_no,
        resolution,
        open_until,
    };
    assert(spec_unpack_market(d@) == Some(m@)) by {
        assert(m@ =~= spec_unpack_market(d@).unwrap());
    }
    Some(m)
}

/// Decoding inverts encoding for market records.
#[verifier::rlimit(50)]
pub proof fn lemma_market_round_trip(m: MarketView)
    requires
        market_view_wf(m),
    ensures
        spec_unpack_market(spec_pack_market(m)) == Some(m),
{
    let d = spec_pack_market(m);
    assert(d.len() == MARKET_RECORD_LEN);
    assert(d.subrange(2, 34) =~= m.resolver);
    assert(d.subrange(34, 42) =~= spec_u64_le(m.num_yes));
    assert(d.subrange(42, 50) =~= spec_u64_le(m.num_no));
    assert(d.subrange(50, 58) =~= spec_u64_le(m.balance_yes));
    assert(d.subrange(58, 66) =~= spec_u64_le(m.balance_no));
    assert(d.subrange(67, 75) =~= spec_i64_le(m.open_until));
    lemma_u64_le_round_trip(m.num_yes);
    lemma_u64_le_round_trip(m.num_no);
    lemma_u64_le_round_trip(m.balance_yes);
    lemma_u64_le_round_trip(m.balance_no);
    lemma_i64_le_round_trip(m.open_until);
    assert(d[66] == spec_resolution_tag(m.resolution));
    assert(spec_unpack_market(d).unwrap() =~= m);
}

} // verus!
