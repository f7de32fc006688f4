use hit_my_bet::addr::Address;
use hit_my_bet::error::HitMyBetError;
use hit_my_bet::instruction::{
    claim_market, init_prediction_market, make_prediction, resolve_market, HitMyBetInstruction,
};
use hit_my_bet::state::prediction_market::MarketResolution;
use hit_my_bet::state::user_prediction::UserVote;

const MARKET_ID: [u8; 16] = *b"market_id_16_chr";

fn addr(b: u8) -> Address {
    Address { bytes: [b; 32] }
}

fn assert_unpack_fails(d: Vec<u8>) {
    assert_eq!(
        HitMyBetInstruction::unpack(&d),
        Err(HitMyBetError::InstructionUnpackError)
    );
}

#[test]
fn init_instruction_exact_bytes() {
    let ix = HitMyBetInstruction::InitPredictionMarket {
        version: 1,
        market_id: MARKET_ID,
        open_until: 0x0102030405060708,
    };
    let d = ix.pack();
    let mut expected: Vec<u8> = vec![0, 1];
    expected.extend_from_slice(&MARKET_ID);
    expected.extend_from_slice(&[8, 7, 6, 5, 4, 3, 2, 1]);
    assert_eq!(d, expected);
}

#[test]
fn make_prediction_instruction_exact_bytes() {
    let ix = HitMyBetInstruction::MakePrediction { version: 1, vote: UserVote::No, num_votes: 517 };
    assert_eq!(ix.pack(), vec![1, 1, 2, 5, 2]);
}

#[test]
fn resolve_and_claim_instruction_exact_bytes() {
    let ix = HitMyBetInstruction::ResolveMarket { version: 1, resolution: MarketResolution::No };
    assert_eq!(ix.pack(), vec![2, 1, 3]);
    let ix = HitMyBetInstruction::ClaimMarket { version: 1 };
    assert_eq!(ix.pack(), vec![3, 1]);
    let ix = HitMyBetInstruction::SetMarketResolverAdmin { version: 1 };
    assert_eq!(ix.pack(), vec![4, 1]);
    let ix = HitMyBetInstruction::ResolveMarketAdmin { version: 1, resolution: MarketResolution::Tie };
    assert_eq!(ix.pack(), vec![5, 1, 1]);
}

#[test]
fn every_instruction_round_trips() {
    let all = vec![
        HitMyBetInstruction::InitPredictionMarket { version: 1, market_id: MARKET_ID, open_until: -60 },
        HitMyBetInstruction::MakePrediction { version: 1, vote: UserVote::Yes, num_votes: 5 },
        HitMyBetInstruction::MakePrediction { version: 1, vote: UserVote::Unspecified, num_votes: 0 },
        HitMyBetInstruction::ResolveMarket { version: 1, resolution: MarketResolution::Yes },
        HitMyBetInstruction::ClaimMarket { version: 1 },
        HitMyBetInstruction::SetMarketResolverAdmin { version: 1 },
        HitMyBetInstruction::ResolveMarketAdmin { version: 1, resolution: MarketResolution::Unresolved },
    ];
    for ix in all {
        let d = ix.pack();
        let back = HitMyBetInstruction::unpack(&d).expect("a packed instruction decodes");
        assert_eq!(back.pack(), d);
    }
}

#[test]
fn unpack_rejects_malformed_bytes() {
    assert_unpack_fails(Vec::new());
    assert_unpack_fails(vec![0]);
    // Unknown discriminant.
    assert_unpack_fails(vec![6, 1]);
    // Truncated init.
    assert_unpack_fails(vec![0, 1, 2, 3]);
    // Trailing byte: the whole input must be consumed.
    let mut d = HitMyBetInstruction::ClaimMarket { version: 1 }.pack();
    d.push(0);
    assert_unpack_fails(d);
    // Unknown vote tag.
    assert_unpack_fails(vec![1, 1, 3, 0, 0]);
    // Unknown resolution tag.
    assert_unpack_fails(vec![2, 1, 4]);
    assert_unpack_fails(vec![5, 1, 9]);
}

#[test]
fn builders_reference_accounts_in_order() {
    let ix = init_prediction_market(addr(7), addr(1), addr(2), addr(3), MARKET_ID, 1);
    assert_eq!(ix.program_id.bytes, [7; 32]);
    assert_eq!(ix.accounts.len(), 4);
    assert_eq!(ix.accounts[0].pubkey.bytes, [1; 32]);
    assert!(ix.accounts[0].is_signer && ix.accounts[0].is_writable);
    assert_eq!(ix.accounts[1].pubkey.bytes, [2; 32]);
    assert!(!ix.accounts[1].is_signer && ix.accounts[1].is_writable);
    assert_eq!(ix.accounts[2].pubkey.bytes, [3; 32]);
    assert!(ix.accounts[2].is_signer && !ix.accounts[2].is_writable);
    assert_eq!(ix.accounts[3].pubkey.bytes, [0; 32]);
    assert!(!ix.accounts[3].is_signer && !ix.accounts[3].is_writable);
    let mut expected: Vec<u8> = vec![0, 1];
    expected.extend_from_slice(&MARKET_ID);
    expected.extend_from_slice(&1i64.to_le_bytes());
    assert_eq!(ix.data, expected);

    let ix = make_prediction(addr(7), addr(1), addr(2), addr(4), UserVote::Yes, 5);
    assert_eq!(ix.accounts.len(), 4);
    assert_eq!(ix.data, vec![1, 1, 1, 5, 0]);

    let ix = resolve_market(addr(7), addr(3), addr(2), MarketResolution::Yes);
    assert_eq!(ix.accounts.len(), 2);
    assert_eq!(ix.data, vec![2, 1, 2]);

    let ix = claim_market(addr(7), addr(1), addr(2), addr(4));
    assert_eq!(ix.accounts.len(), 3);
    assert_eq!(ix.data, vec![3, 1]);
}
