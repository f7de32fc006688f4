//! The instruction codec: a closed, tagged union of six operations with
//! an explicit leading version field in every variant.  Decoding is
//! positional: one discriminant byte selects the variant, followed by
//! its fields in declaration order, fixed width, little endian, no
//! padding; the whole input must be consumed.

use vstd::prelude::*;

use crate::addr::{push_address, spec_system_program_id, system_program_id, Address};
use crate::codec::{
    lemma_i64_le_round_trip, lemma_u16_le_round_trip, push_bytes16, push_i64_le, push_u16_le,
    read_bytes16, read_i64_le, read_u16_le, spec_i64_from_le, spec_i64_le, spec_u16_from_le,
    spec_u16_le,
};
use crate::error::HitMyBetError;
use crate::state::prediction_market::{
    resolution_from_tag, resolution_tag, spec_resolution_from_tag, spec_resolution_tag,
    MarketResolution,
};
use crate::state::user_prediction::UserVote;
use crate::state::PROGRAM_VERSION;

verus! {

/// One decoded instruction.
#[derive(Clone, Copy, Debug, PartialEq, Eq)]
pub enum HitMyBetInstruction {
    InitPredictionMarket { version: u8, market_id: [u8; 16], open_until: i64 },
    MakePrediction { version: u8, vote: UserVote, num_votes: u16 },
    ResolveMarket { version: u8, resolution: MarketResolution },
    ClaimMarket { version: u8 },
    SetMarketResolverAdmin { version: u8 },
    ResolveMarketAdmin { version: u8, resolution: MarketResolution },
}

/// The mathematical value of a [`HitMyBetInstruction`].
#[verifier::ext_equal]
pub enum InstructionView {
    InitPredictionMarket { version: u8, market_id: Seq<u8>, open_until: i64 },
    MakePrediction { version: u8, vote: UserVote, num_votes: u16 },
    ResolveMarket { version: u8, resolution: MarketResolution },
    ClaimMarket { version: u8 },
    SetMarketResolverAdmin { version: u8 },
    ResolveMarketAdmin { version: u8, resolution: MarketResolution },
}

impl View for HitMyBetInstruction {
    type V = InstructionView;

    open spec fn view(&self) -> InstructionView {
        match *self {
            HitMyBetInstruction::InitPredictionMarket { version, market_id, open_until } => (
            InstructionView::InitPredictionMarket { version, market_id: market_id@, open_until }),
            HitMyBetInstruction::MakePrediction { version, vote, num_votes } => (
            InstructionView::MakePrediction { version, vote, num_votes }),
            HitMyBetInstruction::ResolveMarket { version, resolution } => (
            InstructionView::ResolveMarket { version, resolution }),
            HitMyBetInstruction::ClaimMarket { version } => (
            InstructionView::ClaimMarket { version }),
            HitMyBetInstruction::SetMarketResolverAdmin { version } => (
            InstructionView::SetMarketResolverAdmin { version }),
            HitMyBetInstruction::ResolveMarketAdmin { version, resolution } => (
            InstructionView::ResolveMarketAdmin { version, resolution }),
        }
    }
}

/// The byte a vote is encoded as: its declaration position.
pub open spec fn spec_vote_tag(v: UserVote) -> u8 {
    match v {
        UserVote::Unspecified => 0,
        UserVote::Yes => 1,
        UserVote::No => 2,
    }
}

/// The vote a byte decodes to, if any.
pub open spec fn spec_vote_from_tag(t: u8) -> Option<UserVote> {
    if t == 0 {
        Some(UserVote::Unspecified)
    } else if t == 1 {
        Some(UserVote::Yes)
    } else if t == 2 {
        Some(UserVote::No)
    } else {
        None
    }
}

/// Serializes a vote as its tag byte.
pub fn vote_tag(v: UserVote) -> (t: u8)
    ensures
        t == spec_vote_tag(v),
{
    match v {
        UserVote::Unspecified => 0,
        UserVote::Yes => 1,
        UserVote::No => 2,
    }
}

/// Deserializes a vote tag byte.
pub fn vote_from_tag(t: u8) -> (r: Option<UserVote>)
    ensures
        r == spec_vote_from_tag(t),
{
    if t == 0 {
        Some(UserVote::Unspecified)
    } else if t == 1 {
        Some(UserVote::Yes)
    } else if t == 2 {
        Some(UserVote::No)
    } else {
        None
    }
}

/// The wire encoding of an instruction: discriminant byte, then the
/// variant's fields in order.
pub open spec fn spec_pack_instruction(iv: InstructionView) -> Seq<u8> {
    match iv {
        InstructionView::InitPredictionMarket { version, market_id, open_until } => seq![
            0u8,
            version,
        ] + market_id + spec_i64_le(open_until),
        InstructionView::MakePrediction { version, vote, num_votes } => seq![
            1u8,
            version,
            spec_vote_tag(vote),
        ] + spec_u16_le(num_votes),
        InstructionView::ResolveMarket { version, resolution } => seq![
            2u8,
            version,
            spec_resolution_tag(resolution),
        ],
        InstructionView::ClaimMarket { version } => seq![3u8, version],
        InstructionView::SetMarketResolverAdmin { version } => seq![4u8, version],
        InstructionView::ResolveMarketAdmin { version, resolution } => seq![
            5u8,
            version,
            spec_resolution_tag(resolution),
        ],
    }
}

/// The instruction a byte string decodes to, if it is exactly one
/// well-formed encoding; anything else is malformed.
pub open spec fn spec_unpack_instruction(d: Seq<u8>) -> Option<InstructionView> {
    if d.len() < 2 {
        None
    } else if d[0] == 0 {
        if d.len() == 26 {
            Some(
                InstructionView::InitPredictionMarket {
                    version: d[1],
                    market_id: d.subrange(2, 18),
                    open_until: spec_i64_from_le(d.subrange(18, 26)),
                },
            )
        } else {
            None
        }
    } else if d[0] == 1 {
        if d.len() == 5 {
            match spec_vote_from_tag(d[2]) {
                Some(vote) => Some(
                    InstructionView::MakePrediction {
                        version: d[1],
                        vote,
                        num_votes: spec_u16_from_le(d.subrange(3, 5)) as u16,
                    },
                ),
                None => None,
            }
        } else {
            None
        }
    } else if d[0] == 2 {
        if d.len() == 3 {
            match spec_resolution_from_tag(d[2]) {
                Some(resolution) => Some(
                    InstructionView::ResolveMarket { version: d[1], resolution },
                ),
                None => None,
            }
        } else {
            None
        }
    } else if d[0] == 3 {
        if d.len() == 2 {
            Some(InstructionView::ClaimMarket { version: d[1] })
        } else {
            None
        }
    } else if d[0] == 4 {
        if d.len() == 2 {
            Some(InstructionView::SetMarketResolverAdmin { version: d[1] })
        } else {
            None
        }
    } else if d[0] == 5 {
        if d.len() == 3 {
            match spec_resolution_from_tag(d[2]) {
                Some(resolution) => Some(
                    InstructionView::ResolveMarketAdmin { version: d[1], resolution },
                ),
                None => None,
            }
        } else {
            None
        }
    } else {
        None
    }
}

impl HitMyBetInstruction {
    /// Decodes instruction bytes; any malformation — truncation,
    /// trailing bytes, an unknown discriminant or tag — is the one
    /// failure kind the codec may report.
    pub fn unpack(input: &Vec<u8>) -> (r: Result<HitMyBetInstruction, HitMyBetError>)
        ensures
            match r {
                Ok(ix) => spec_unpack_instruction(input@) == Some(ix@),
                Err(e) => spec_unpack_instruction(input@) is None && e
                    == HitMyBetError::InstructionUnpackError,
            },
    {
        if input.len() < 2 {
            return Err(HitMyBetError::InstructionUnpackError);
        }
        let tag = input[0];
        let version = input[1];
        if tag == 0 {
            if input.len() != 26 {
                return Err(HitMyBetError::InstructionUnpackError);
            }
            let market_id = read_bytes16(input, 2);
            let open_until = read_i64_le(input, 18);
            let ix = HitMyBetInstruction::InitPredictionMarket { version, market_id, open_until };
            assert(spec_unpack_instruction(input@) == Some(ix@)) by {
                assert(ix@ =~= spec_unpack_instruction(input@).unwrap());
            }
            Ok(ix)
        } else if tag == 1 {
            if input.len() != 5 {
                return Err(HitMyBetError::InstructionUnpackError);
            }
            let vote = match vote_from_tag(input[2]) {
                Some(vote) => vote,
                None => {
                    return Err(HitMyBetError::InstructionUnpackError);
                },
            };
            let num_votes = read_u16_le(input, 3);
            assert(0 <= spec_u16_from_le(input@.subrange(3, 5)) <= u16::MAX);
            Ok(HitMyBetInstruction::MakePrediction { version, vote, num_votes })
        } else if tag == 2 {
            if input.len() != 3 {
                return Err(HitMyBetError::InstructionUnpackError);
            }
            match resolution_from_tag(input[2]) {
                Some(resolution) => Ok(HitMyBetInstruction::ResolveMarket { version, resolution }),
                None => Err(HitMyBetError::InstructionUnpackError),
            }
        } else if tag == 3 {
            if input.len() != 2 {
                return Err(HitMyBetError::InstructionUnpackError);
            }
            Ok(HitMyBetInstruction::ClaimMarket { version })
        } else if tag == 4 {
            if input.len() != 2 {
                return Err(HitMyBetError::InstructionUnpackError);
            }
            Ok(HitMyBetInstruction::SetMarketResolverAdmin { version })
        } else if tag == 5 {
            if input.len() != 3 {
                return Err(HitMyBetError::InstructionUnpackError);
            }
            match resolution_from_tag(input[2]) {
                Some(resolution) => Ok(
                    HitMyBetInstruction::ResolveMarketAdmin { version, resolution },
                ),
                None => Err(HitMyBetError::InstructionUnpackError),
            }
        } else {
            Err(HitMyBetError::InstructionUnpackError)
        }
    }

    /// Encodes this instruction as its wire bytes.
    pub fn pack(&self) -> (r: Vec<u8>)
        ensures
            r@ == spec_pack_instruction(self@),
    {
        let mut out: Vec<u8> = Vec::new();
        match self {
            HitMyBetInstruction::InitPredictionMarket { version, market_id, open_until } => {
                out.push(0);
                out.push(*version);
                push_bytes16(&mut out, market_id);
                push_i64_le(&mut out, *open_until);
            },
            HitMyBetInstruction::MakePrediction { version, vote, num_votes } => {
                out.push(1);
                out.push(*version);
                out.push(vote_tag(*vote));
                push_u16_le(&mut out, *num_votes);
            },
            HitMyBetInstruction::ResolveMarket { version, resolution } => {
                out.push(2);
                out.push(*version);
                out.push(resolution_tag(*resolution));
            },
            HitMyBetInstruction::ClaimMarket { version } => {
                out.push(3);
                out.push(*version);
            },
            HitMyBetInstruction::SetMarketResolverAdmin { version } => {
                out.push(4);
                out.push(*version);
            },
            HitMyBetInstruction::ResolveMarketAdmin { version, resolution } => {
                out.push(5);
                out.push(*version);
                out.push(resolution_tag(*resolution));
            },
        }
        assert(out@ =~= spec_pack_instruction(self@));
        out
    }
}

/// An instruction view whose identifier fields have their wire width.
pub open spec fn instruction_view_wf(iv: InstructionView) -> bool {
    match iv {
        InstructionView::InitPredictionMarket { market_id, .. } => market_id.len() == 16,
        _ => true,
    }
}

/// Decoding inverts encoding for instructions.
pub proof fn lemma_instruction_round_trip(iv: InstructionView)
    requires
        instruction_view_wf(iv),
    ensures
        spec_unpack_instruction(spec_pack_instruction(iv)) == Some(iv),
{
    let d = spec_pack_instruction(iv);
    match iv {
        InstructionView::InitPredictionMarket { version, market_id, open_until } => {
            assert(d.subrange(2, 18) =~= market_id);
            assert(d.subrange(18, 26) =~= spec_i64_le(open_until));
            lemma_i64_le_round_trip(open_until);
            assert(spec_unpack_instruction(d).unwrap() =~= iv);
        },
        InstructionView::MakePrediction { version, vote, num_votes } => {
            assert(d.subrange(3, 5) =~= spec_u16_le(num_votes));
            lemma_u16_le_round_trip(num_votes);
            assert(spec_unpack_instruction(d).unwrap() =~= iv);
        },
        InstructionView::ResolveMarket { version, resolution } => {
            assert(spec_unpack_instruction(d).unwrap() =~= iv);
        },
        InstructionView::ClaimMarket { version } => {
            assert(spec_unpack_instruction(d).unwrap() =~= iv);
        },
        InstructionView::SetMarketResolverAdmin { version } => {
            assert(spec_unpack_instruction(d).unwrap() =~= iv);
        },
        InstructionView::ResolveMarketAdmin { version, resolution } => {
            assert(spec_unpack_instruction(d).unwrap() =~= iv);
        },
    }
}

/// One account reference carried by a built instruction: the address,
/// whether it must co-sign, and whether it may be written.
pub struct AccountMeta {
    pub pubkey: Address,
    pub is_signer: bool,
    pub is_writable: bool,
}

impl AccountMeta {
    /// A writable account reference.
    pub fn new(pubkey: Address, is_signer: bool) -> (m: AccountMeta)
        ensures
            m.pubkey@ == pubkey@,
            m.is_signer == is_signer,
            m.is_writable,
    {
        AccountMeta { pubkey, is_signer, is_writable: true }
    }

    /// A read-only account reference.
    pub fn new_readonly(pubkey: Address, is_signer: bool) -> (m: AccountMeta)
        ensures
            m.pubkey@ == pubkey@,
            m.is_signer == is_signer,
            !m.is_writable,
    {
        AccountMeta { pubkey, is_signer, is_writable: false }
    }
}

/// A fully built invocation request: the target program, the account
/// references the operation consumes in order, and the encoded
/// instruction bytes.
pub struct Instruction {
    pub program_id: Address,
    pub accounts: Vec<AccountMeta>,
    pub data: Vec<u8>,
}

/// Builds the market-creation request: creator and resolver co-sign,
/// the market record and the allocator follow.
pub fn init_prediction_market(
    program_id: Address,
    creator: Address,
    market_pubkey: Address,
    resolver: Address,
    market_id: [u8; 16],
    open_until: i64,
) -> (ix: Instruction)
    ensures
        ix.program_id@ == program_id@,
        ix.accounts@.len() == 4,
        ix.accounts@[0].pubkey@ == creator@ && ix.accounts@[0].is_signer
            && ix.accounts@[0].is_writable,
        ix.accounts@[1].pubkey@ == market_pubkey@ && !ix.accounts@[1].is_signer
            && ix.accounts@[1].is_writable,
        ix.accounts@[2].pubkey@ == resolver@ && ix.accounts@[2].is_signer
            && !ix.accounts@[2].is_writable,
        ix.accounts@[3].pubkey@ == spec_system_program_id() && !ix.accounts@[3].is_signer
            && !ix.accounts@[3].is_writable,
        ix.data@ == spec_pack_instruction(
            InstructionView::InitPredictionMarket {
                version: PROGRAM_VERSION,
                market_id: market_id@,
                open_until,
            },
        ),
{
    let mut accounts: Vec<AccountMeta> = Vec::new();
    accounts.push(AccountMeta::new(creator, true));
    accounts.push(AccountMeta::new(market_pubkey, false));
    accounts.push(AccountMeta::new_readonly(resolver, true));
    accounts.push(AccountMeta::new_readonly(system_program_id(), false));
    let data = HitMyBetInstruction::InitPredictionMarket {
        version: PROGRAM_VERSION,
        market_id,
        open_until,
    }.pack();
    Instruction { program_id, accounts, data }
}

/// Builds a voting request: the voter signs and funds the stake, the
/// market, the voter's prediction record and the allocator follow.
pub fn make_prediction(
    program_id: Address,
    voter: Address,
    market_pubkey: Address,
    user_prediction_pubkey: Address,
    vote: UserVote,
    num_votes: u16,
) -> (ix: Instruction)
    ensures
        ix.program_id@ == program_id@,
        ix.accounts@.len() == 4,
        ix.accounts@[0].pubkey@ == voter@ && ix.accounts@[0].is_signer
            && ix.accounts@[0].is_writable,
        ix.accounts@[1].pubkey@ == market_pubkey@ && !ix.accounts@[1].is_signer
            && ix.accounts@[1].is_writable,
        ix.accounts@[2].pubkey@ == user_prediction_pubkey@ && !ix.accounts@[2].is_signer
            && ix.accounts@[2].is_writable,
        ix.accounts@[3].pubkey@ == spec_system_program_id() && !ix.accounts@[3].is_signer
            && !ix.accounts@[3].is_writable,
        ix.data@ == spec_pack_instruction(
            InstructionView::MakePrediction { version: PROGRAM_VERSION, vote, num_votes },
        ),
{
    let mut accounts: Vec<AccountMeta> = Vec::new();
    accounts.push(AccountMeta::new(voter, true));
    accounts.push(AccountMeta::new(market_pubkey, false));
    accounts.push(AccountMeta::new(user_prediction_pubkey, false));
    accounts.push(AccountMeta::new_readonly(system_program_id(), false));
    let data = HitMyBetInstruction::MakePrediction {
        version: PROGRAM_VERSION,
        vote,
        num_votes,
    }.pack();
    Instruction { program_id, accounts, data }
}

/// Builds a resolution request: the resolver signs, the market follows.
pub fn resolve_market(
    program_id: Address,
    resolver: Address,
    market_pubkey: Address,
    resolution: MarketResolution,
) -> (ix: Instruction)
    ensures
        ix.program_id@ == program_id@,
        ix.accounts@.len() == 2,
        ix.accounts@[0].pubkey@ == resolver@ && ix.accounts@[0].is_signer
            && ix.accounts@[0].is_writable,
        ix.accounts@[1].pubkey@ == market_pubkey@ && !ix.accounts@[1].is_signer
            && ix.accounts@[1].is_writable,
        ix.data@ == spec_pack_instruction(
            InstructionView::ResolveMarket { version: PROGRAM_VERSION, resolution },
        ),
{
    let mut accounts: Vec<AccountMeta> = Vec::new();
    accounts.push(AccountMeta::new(resolver, true));
    accounts.push(AccountMeta::new(market_pubkey, false));
    let data = HitMyBetInstruction::ResolveMarket { version: PROGRAM_VERSION, resolution }.pack();
    Instruction { program_id, accounts, data }
}

/// Builds a claim request: the claimer signs, the market and the
/// claimer's prediction record follow.
pub fn claim_market(
    program_id: Address,
    claimer: Address,
    market_pubkey: Address,
    prediction_pubkey: Address,
) -> (ix: Instruction)
    ensures
        ix.program_id@ == program_id@,
        ix.accounts@.len() == 3,
        ix.accounts@[0].pubkey@ == claimer@ && ix.accounts@[0].is_signer
            && ix.accounts@[0].is_writable,
        ix.accounts@[1].pubkey@ == market_pubkey@ && !ix.accounts@[1].is_signer
            && ix.accounts@[1].is_writable,
        ix.accounts@[2].pubkey@ == prediction_pubkey@ && !ix.accounts@[2].is_signer
            && ix.accounts@[2].is_writable,
        ix.data@ == spec_pack_instruction(
            InstructionView::ClaimMarket { version: PROGRAM_VERSION },
        ),
{
    let mut accounts: Vec<AccountMeta> = Vec::new();
    accounts.push(AccountMeta::new(claimer, true));
    accounts.push(AccountMeta::new(market_pubkey, false));
    accounts.push(AccountMeta::new(prediction_pubkey, false));
    let data = HitMyBetInstruction::ClaimMarket { version: PROGRAM_VERSION }.pack();
    Instruction { program_id, accounts, data }
}

} // verus!
