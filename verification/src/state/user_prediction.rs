//! The per-(market, voter) prediction record.

use vstd::prelude::*;

use crate::codec::{
    lemma_u64_le_round_trip, push_u64_le, read_u64_le, spec_u64_from_le, spec_u64_le,
};
use crate::state::PROGRAM_VERSION;

verus! {

/// The encoded size of a [`UserPrediction`] record: two version bytes
/// and two vote counters, fixed width, no padding.
pub const USER_PREDICTION_RECORD_LEN: usize = 18;

/// One voter's cumulative stake counts in one market.  Created lazily on
/// the voter's first vote and consumed exactly once by a claim.
#[derive(Clone, Copy, Debug, PartialEq, Eq, Structural)]
pub struct UserPrediction {
    pub version: u8,
    pub bump_seed: u8,
    pub num_votes_yes: u64,
    pub num_votes_no: u64,
}

/// The outcome a vote is cast for.  `Unspecified` is a placeholder that
/// is rejected before any business logic runs.
#[derive(Clone, Copy, Debug, PartialEq, Eq, Structural)]
pub enum UserVote {
    Unspecified,
    Yes,
    No,
}

impl UserPrediction {
    /// A fresh record for a voter's first vote: current version, the
    /// given address bump, zero counts.
    pub fn with_seed(bump_seed: u8) -> (p: UserPrediction)
        ensures
            p == (UserPrediction {
                version: PROGRAM_VERSION,
                bump_seed,
                num_votes_yes: 0,
                num_votes_no: 0,
            }),
    {
        UserPrediction { version: PROGRAM_VERSION, bump_seed, num_votes_yes: 0, num_votes_no: 0 }
    }
}

/// The persisted layout of a prediction record: field order as declared,
/// fixed width, little endian.
pub open spec fn spec_pack_prediction(p: UserPrediction) -> Seq<u8> {
    seq![p.version, p.bump_seed] + spec_u64_le(p.num_votes_yes) + spec_u64_le(p.num_votes_no)
}

/// The prediction record read back from the leading bytes of `d`, if
/// they decode; trailing bytes are ignored.
pub open spec fn spec_unpack_prediction(d: Seq<u8>) -> Option<UserPrediction> {
    if d.len() < USER_PREDICTION_RECORD_LEN {
        None
    } else {
        Some(
            UserPrediction {
                version: d[0],
                bump_seed: d[1],
                num_votes_yes: spec_u64_from_le(d.subrange(2, 10)) as u64,
                num_votes_no: spec_u64_from_le(d.subrange(10, 18)) as u64,
            },
        )
    }
}

/// Serializes a prediction record.
pub fn pack_prediction(p: &UserPrediction) -> (r: Vec<u8>)
    ensures
        r@ == spec_pack_prediction(*p),
        r@.len() == USER_PREDICTION_RECORD_LEN,
{
    let mut out: Vec<u8> = Vec::new();
    out.push(p.version);
    out.push(p.bump_seed);
    push_u64_le(&mut out, p.num_votes_yes);
    push_u64_le(&mut out, p.num_votes_no);
    assert(out@ =~= spec_pack_prediction(*p));
    out
}

/// Deserializes the leading bytes of `d` as a prediction record.
pub fn unpack_prediction(d: &Vec<u8>) -> (r: Option<UserPrediction>)
    ensures
        match r {
            Some(p) => spec_unpack_prediction(d@) == Some(p),
            None => spec_unpack_prediction(d@) is None,
        },
{
    if d.len() < USER_PREDICTION_RECORD_LEN {
        return None;
    }
    let num_votes_yes = read_u64_le(d, 2);
    let num_votes_no = read_u64_le(d, 10);
    proof {
        lemma_u64_bytes_in_range(d@.subrange(2, 10));
        lemma_u64_bytes_in_range(d@.subrange(10, 18));
    }
    Some(UserPrediction { version: d[0], bump_seed: d[1], num_votes_yes, num_votes_no })
}

/// An eight-byte little-endian reading always fits in a `u64`.
pub proof fn lemma_u64_bytes_in_range(b: Seq<u8>)
    requires
        b.len() == 8,
    ensures
        0 <= spec_u64_from_le(b) <= u64::MAX,
{
}

/// Decoding inverts encoding for prediction records.
pub proof fn lemma_prediction_round_trip(p: UserPrediction)
    ensures
        spec_unpack_prediction(spec_pack_prediction(p)) == Some(p),
{
    let d = spec_pack_prediction(p);
    assert(d.subrange(2, 10) =~= spec_u64_le(p.num_votes_yes));
    assert(d.subrange(10, 18) =~= spec_u64_le(p.num_votes_no));
    lemma_u64_le_round_trip(p.num_votes_yes);
    lemma_u64_le_round_trip(p.num_votes_no);
}

} // verus!
