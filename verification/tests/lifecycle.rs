use hit_my_bet::addr::{system_program_id, Address};
use hit_my_bet::entrypoint::process_instruction;
use hit_my_bet::error::{HitMyBetError, ProgramFailure};
use hit_my_bet::instruction::{
    claim_market, init_prediction_market, make_prediction, resolve_market, HitMyBetInstruction,
};
use hit_my_bet::processor::{AccountRecord, HostParams};
use hit_my_bet::state::prediction_market::{unpack_market, MarketResolution, PredictionMarket};
use hit_my_bet::state::user_prediction::{unpack_prediction, UserVote};
use hit_my_bet::state::{CREATE_MARKET_FEE, PROGRAM_VERSION, VOTE_PRICE};
use hit_my_bet::ProgramConfig;

const MARKET_ID: [u8; 16] = *b"market_id_16_chr";
const MARKET_RESERVE: u64 = 2_000_000;
const PREDICTION_RESERVE: u64 = 1_000_000;

fn addr(b: u8) -> Address {
    Address { bytes: [b; 32] }
}

fn config() -> ProgramConfig {
    ProgramConfig {
        program_id: addr(7),
        admin_resolver: addr(9),
        vote_price: VOTE_PRICE,
        create_market_fee: CREATE_MARKET_FEE,
    }
}

fn env(now: i64) -> HostParams {
    HostParams { now, market_reserve: MARKET_RESERVE, prediction_reserve: PREDICTION_RESERVE }
}

fn wallet(key: Address, lamports: u64) -> AccountRecord {
    AccountRecord {
        key,
        is_signer: true,
        lamports,
        owner: system_program_id(),
        data: Vec::new(),
    }
}

fn system_account() -> AccountRecord {
    AccountRecord {
        key: system_program_id(),
        is_signer: false,
        lamports: 1,
        owner: system_program_id(),
        data: Vec::new(),
    }
}

fn solana_pubkey(a: &Address) -> solana_program::pubkey::Pubkey {
    solana_program::pubkey::Pubkey::new_from_array(a.bytes)
}

fn market_pda(market_id: &[u8; 16], cfg: &ProgramConfig) -> (Address, u8) {
    let (key, bump) = solana_program::pubkey::Pubkey::find_program_address(
        &[b"prediction_market", market_id],
        &solana_pubkey(&cfg.program_id),
    );
    (Address { bytes: key.to_bytes() }, bump)
}

fn prediction_pda(market_key: &Address, voter: &Address, cfg: &ProgramConfig) -> (Address, u8) {
    let (key, bump) = solana_program::pubkey::Pubkey::find_program_address(
        &[b"user_prediction", &market_key.bytes, &voter.bytes],
        &solana_pubkey(&cfg.program_id),
    );
    (Address { bytes: key.to_bytes() }, bump)
}

fn empty_account(key: Address) -> AccountRecord {
    AccountRecord {
        key,
        is_signer: false,
        lamports: 0,
        owner: system_program_id(),
        data: Vec::new(),
    }
}

fn run(
    cfg: &ProgramConfig,
    env: &HostParams,
    accounts: Vec<AccountRecord>,
    data: Vec<u8>,
) -> Result<Vec<AccountRecord>, ProgramFailure> {
    process_instruction(cfg, env, &cfg.program_id, &accounts, &data)
}

/// Creates the standard test market and returns (creator, market) as
/// the creation left them.
fn created_market(cfg: &ProgramConfig, now: i64, open_until: i64) -> (AccountRecord, AccountRecord) {
    let (market_key, _) = market_pda(&MARKET_ID, cfg);
    let creator = wallet(addr(1), 10_000_000_000);
    let resolver = wallet(addr(3), 0);
    let ix = init_prediction_market(
        cfg.program_id,
        creator.key,
        market_key,
        resolver.key,
        MARKET_ID,
        open_until,
    );
    let mut out = run(
        cfg,
        &env(now),
        vec![creator, empty_account(market_key), resolver, system_account()],
        ix.data,
    )
    .expect("market creation succeeds");
    let market = out.swap_remove(1);
    let creator = out.swap_remove(0);
    (creator, market)
}

/// Casts a vote and returns (voter, market, prediction) as the vote
/// left them.
fn voted(
    cfg: &ProgramConfig,
    now: i64,
    market: AccountRecord,
    voter: AccountRecord,
    prediction: AccountRecord,
    vote: UserVote,
    num_votes: u16,
) -> (AccountRecord, AccountRecord, AccountRecord) {
    let ix = make_prediction(cfg.program_id, voter.key, market.key, prediction.key, vote, num_votes);
    let mut out = run(
        cfg,
        &env(now),
        vec![voter, market, prediction, system_account()],
        ix.data,
    )
    .expect("vote succeeds");
    let prediction = out.swap_remove(2);
    let market = out.swap_remove(1);
    let voter = out.swap_remove(0);
    (voter, market, prediction)
}

/// Resolves the market and returns it as the resolution left it.
fn resolved(
    cfg: &ProgramConfig,
    now: i64,
    market: AccountRecord,
    resolver: AccountRecord,
    resolution: MarketResolution,
) -> AccountRecord {
    let ix = resolve_market(cfg.program_id, resolver.key, market.key, resolution);
    let mut out = run(cfg, &env(now), vec![resolver, market], ix.data).expect("resolution succeeds");
    out.swap_remove(1)
}

fn decoded_market(rec: &AccountRecord) -> PredictionMarket {
    unpack_market(&rec.data).expect("market record decodes")
}

#[test]
fn init_prediction_market_test_success() {
    const OPEN_UNTIL: i64 = 1;
    let cfg = config();
    let (_, bump) = market_pda(&MARKET_ID, &cfg);
    let (creator, market) = created_market(&cfg, 0, OPEN_UNTIL);
    assert_eq!(creator.lamports, 10_000_000_000 - MARKET_RESERVE - CREATE_MARKET_FEE);
    assert_eq!(market.lamports, MARKET_RESERVE + CREATE_MARKET_FEE);
    assert_eq!(market.owner.bytes, cfg.program_id.bytes);
    let m = decoded_market(&market);
    assert_eq!(m.version, PROGRAM_VERSION);
    assert_eq!(m.bump_seed, bump);
    assert_eq!(m.resolver.bytes, [3; 32]);
    assert_eq!(m.num_yes, 0);
    assert_eq!(m.num_no, 0);
    assert_eq!(m.balance_yes, 0);
    assert_eq!(m.balance_no, 0);
    assert_eq!(m.resolution, MarketResolution::Unresolved);
    assert_eq!(m.open_until, OPEN_UNTIL);
}

#[test]
fn test_already_initialized() {
    let cfg = config();
    let (market_key, _) = market_pda(&MARKET_ID, &cfg);
    let (_, market) = created_market(&cfg, 0, 1);
    let record_before = market.data.clone();
    let ix = init_prediction_market(cfg.program_id, addr(2), market_key, addr(3), MARKET_ID, 1);
    let r = run(
        &cfg,
        &env(0),
        vec![wallet(addr(2), 10_000_000_000), market.clone(), wallet(addr(3), 0), system_account()],
        ix.data,
    );
    assert_eq!(r, Err(ProgramFailure::Custom(HitMyBetError::AlreadyInitialized)));
    // A failed invocation persists nothing: the first record stands.
    assert_eq!(market.data, record_before);
    assert_eq!(HitMyBetError::AlreadyInitialized.code(), 4);
}

#[test]
fn make_prediction_test_success() {
    const NUM_VOTES: u16 = 5;
    let cfg = config();
    let now: i64 = 1000;
    let (creator, market) = created_market(&cfg, now, now + 60);
    let balance_before = market.lamports;
    let (pred_key, _) = prediction_pda(&market.key, &creator.key, &cfg);
    let (_, market, prediction) = voted(
        &cfg,
        now,
        market,
        creator,
        empty_account(pred_key),
        UserVote::Yes,
        NUM_VOTES,
    );
    assert_eq!(market.lamports - balance_before, VOTE_PRICE * u64::from(NUM_VOTES));
    let m = decoded_market(&market);
    assert_eq!(m.num_yes, u64::from(NUM_VOTES));
    assert_eq!(m.balance_yes, VOTE_PRICE * u64::from(NUM_VOTES));
    let p = unpack_prediction(&prediction.data).expect("prediction record decodes");
    assert_eq!(p.num_votes_yes, u64::from(NUM_VOTES));
    assert_eq!(p.num_votes_no, 0);
    assert_eq!(prediction.lamports, PREDICTION_RESERVE);
    assert_eq!(prediction.owner.bytes, cfg.program_id.bytes);
}

/// The full settlement scenario: A stakes 5 on Yes, B stakes 3 on No,
/// the market resolves Yes; A is paid the whole losing pool plus their
/// principal, B only gets their record's reserve back.
#[test]
fn scenario_yes_resolution_pays_winners() {
    let cfg = config();
    let now: i64 = 1000;
    let (_, market) = created_market(&cfg, now, now + 60);
    let market_created_lamports = market.lamports;

    let voter_a = wallet(addr(10), 1_000_000_000);
    let (pred_a_key, _) = prediction_pda(&market.key, &voter_a.key, &cfg);
    let (voter_a, market, pred_a) =
        voted(&cfg, now, market, voter_a, empty_account(pred_a_key), UserVote::Yes, 5);
    assert_eq!(voter_a.lamports, 1_000_000_000 - PREDICTION_RESERVE - 500_000_000);

    let voter_b = wallet(addr(11), 1_000_000_000);
    let (pred_b_key, _) = prediction_pda(&market.key, &voter_b.key, &cfg);
    let (voter_b, market, pred_b) =
        voted(&cfg, now, market, voter_b, empty_account(pred_b_key), UserVote::No, 3);
    assert_eq!(voter_b.lamports, 1_000_000_000 - PREDICTION_RESERVE - 300_000_000);
    assert_eq!(market.lamports, market_created_lamports + 500_000_000 + 300_000_000);

    let market = resolved(&cfg, now + 10, market, wallet(addr(3), 0), MarketResolution::Yes);
    let m = decoded_market(&market);
    assert_eq!(m.resolution, MarketResolution::Yes);
    assert_eq!(m.open_until, now + 10);
    // The totals are frozen by resolution.
    assert_eq!((m.num_yes, m.num_no), (5, 3));
    assert_eq!((m.balance_yes, m.balance_no), (500_000_000, 300_000_000));

    // Claim A: rate = 300_000_000 / 5; payout = rate * 5 + 5 * unit.
    let ix = claim_market(cfg.program_id, voter_a.key, market.key, pred_a.key);
    let out = run(&cfg, &env(now + 20), vec![voter_a, market, pred_a], ix.data)
        .expect("winner claim succeeds");
    assert_eq!(
        out[0].lamports,
        1_000_000_000 - PREDICTION_RESERVE - 500_000_000 + PREDICTION_RESERVE + 800_000_000
    );
    let market = out[1].clone();
    assert_eq!(
        market.lamports,
        market_created_lamports + 500_000_000 + 300_000_000 - 800_000_000
    );
    // The market record itself is untouched by a claim.
    let m_after = decoded_market(&market);
    assert_eq!((m_after.num_yes, m_after.num_no), (5, 3));
    assert_eq!((m_after.balance_yes, m_after.balance_no), (500_000_000, 300_000_000));
    // The prediction record is reclaimed.
    assert_eq!(out[2].lamports, 0);
    assert_eq!(out[2].data.len(), 0);
    assert_eq!(out[2].owner.bytes, [0; 32]);

    // Claim B: no winning votes; only the record's reserve comes back.
    let ix = claim_market(cfg.program_id, voter_b.key, market.key, pred_b.key);
    let out = run(&cfg, &env(now + 30), vec![voter_b, market, pred_b], ix.data)
        .expect("loser claim succeeds");
    assert_eq!(out[0].lamports, 1_000_000_000 - PREDICTION_RESERVE - 300_000_000 + PREDICTION_RESERVE);
    assert_eq!(out[1].lamports, market_created_lamports + 500_000_000 + 300_000_000 - 800_000_000);
    assert_eq!(out[2].data.len(), 0);
}

/// The tie scenario with the same stakes: both voters get exactly their
/// principal back, nobody gains or loses.
#[test]
fn scenario_tie_refunds_principal() {
    let cfg = config();
    let now: i64 = 1000;
    let (_, market) = created_market(&cfg, now, now + 60);

    let voter_a = wallet(addr(10), 1_000_000_000);
    let (pred_a_key, _) = prediction_pda(&market.key, &voter_a.key, &cfg);
    let (voter_a, market, pred_a) =
        voted(&cfg, now, market, voter_a, empty_account(pred_a_key), UserVote::Yes, 5);

    let voter_b = wallet(addr(11), 1_000_000_000);
    let (pred_b_key, _) = prediction_pda(&market.key, &voter_b.key, &cfg);
    let (voter_b, market, pred_b) =
        voted(&cfg, now, market, voter_b, empty_account(pred_b_key), UserVote::No, 3);

    let market = resolved(&cfg, now + 10, market, wallet(addr(3), 0), MarketResolution::Tie);

    let ix = claim_market(cfg.program_id, voter_a.key, market.key, pred_a.key);
    let out = run(&cfg, &env(now + 20), vec![voter_a, market, pred_a], ix.data)
        .expect("tie claim succeeds");
    // Exactly 500_000_000 comes back out of the market.
    assert_eq!(out[0].lamports, 1_000_000_000);
    let market = out[1].clone();

    let ix = claim_market(cfg.program_id, voter_b.key, market.key, pred_b.key);
    let out = run(&cfg, &env(now + 30), vec![voter_b, market, pred_b], ix.data)
        .expect("tie claim succeeds");
    // Exactly 300_000_000 comes back out of the market.
    assert_eq!(out[0].lamports, 1_000_000_000);
}

#[test]
fn vote_after_close_fails() {
    let cfg = config();
    let (creator, market) = created_market(&cfg, 1000, 1060);
    let (pred_key, _) = prediction_pda(&market.key, &creator.key, &cfg);
    let ix = make_prediction(cfg.program_id, creator.key, market.key, pred_key, UserVote::Yes, 1);
    let r = run(
        &cfg,
        &env(1060),
        vec![creator, market, empty_account(pred_key), system_account()],
        ix.data,
    );
    assert_eq!(r, Err(ProgramFailure::Custom(HitMyBetError::MarketIsClosed)));
}

#[test]
fn vote_after_resolution_fails_regardless_of_time() {
    let cfg = config();
    let (creator, market) = created_market(&cfg, 1000, 1060);
    let market = resolved(&cfg, 1010, market, wallet(addr(3), 0), MarketResolution::No);
    let (pred_key, _) = prediction_pda(&market.key, &creator.key, &cfg);
    let ix = make_prediction(cfg.program_id, creator.key, market.key, pred_key, UserVote::Yes, 1);
    // Long before the market would have closed naturally.
    let r = run(
        &cfg,
        &env(-100),
        vec![creator, market, empty_account(pred_key), system_account()],
        ix.data,
    );
    assert_eq!(r, Err(ProgramFailure::Custom(HitMyBetError::MarketIsResolved)));
}

#[test]
fn resolve_twice_fails() {
    let cfg = config();
    let (_, market) = created_market(&cfg, 1000, 1060);
    let market = resolved(&cfg, 1010, market, wallet(addr(3), 0), MarketResolution::Yes);
    let ix = resolve_market(cfg.program_id, addr(3), market.key, MarketResolution::No);
    let r = run(&cfg, &env(1020), vec![wallet(addr(3), 0), market], ix.data);
    assert_eq!(r, Err(ProgramFailure::Custom(HitMyBetError::MarketIsResolved)));
}

#[test]
fn resolve_by_non_resolver_fails() {
    let cfg = config();
    let (_, market) = created_market(&cfg, 1000, 1060);
    let ix = resolve_market(cfg.program_id, addr(4), market.key, MarketResolution::Yes);
    let r = run(&cfg, &env(1010), vec![wallet(addr(4), 0), market], ix.data);
    assert_eq!(r, Err(ProgramFailure::Custom(HitMyBetError::InvalidResolver)));
}

#[test]
fn resolve_as_admin() {
    let cfg = config();
    let (_, market) = created_market(&cfg, 1000, 1060);
    // A non-admin, non-resolver signer is rejected on the admin path.
    let data = HitMyBetInstruction::ResolveMarketAdmin {
        version: PROGRAM_VERSION,
        resolution: MarketResolution::Yes,
    }
    .pack();
    let r = run(&cfg, &env(1010), vec![wallet(addr(4), 0), market.clone()], data.clone());
    assert_eq!(r, Err(ProgramFailure::Custom(HitMyBetError::InvalidResolver)));
    // The fixed administrative identity may resolve any market.
    let out = run(&cfg, &env(1010), vec![wallet(addr(9), 0), market], data)
        .expect("admin resolution succeeds");
    let m = decoded_market(&out[1]);
    assert_eq!(m.resolution, MarketResolution::Yes);
    assert_eq!(m.open_until, 1010);
}

#[test]
fn claim_before_resolution_fails() {
    let cfg = config();
    let now: i64 = 1000;
    let (_, market) = created_market(&cfg, now, now + 60);
    let voter_a = wallet(addr(10), 1_000_000_000);
    let (pred_key, _) = prediction_pda(&market.key, &voter_a.key, &cfg);
    let (voter_a, market, pred_a) =
        voted(&cfg, now, market, voter_a, empty_account(pred_key), UserVote::Yes, 5);
    let ix = claim_market(cfg.program_id, voter_a.key, market.key, pred_a.key);
    let r = run(&cfg, &env(now + 10), vec![voter_a, market, pred_a], ix.data);
    assert_eq!(r, Err(ProgramFailure::Custom(HitMyBetError::MarketIsNotResolved)));
}

#[test]
fn claim_twice_fails() {
    let cfg = config();
    let now: i64 = 1000;
    let (_, market) = created_market(&cfg, now, now + 60);
    let voter_a = wallet(addr(10), 1_000_000_000);
    let (pred_key, _) = prediction_pda(&market.key, &voter_a.key, &cfg);
    let (voter_a, market, pred_a) =
        voted(&cfg, now, market, voter_a, empty_account(pred_key), UserVote::Yes, 5);
    let market = resolved(&cfg, now + 10, market, wallet(addr(3), 0), MarketResolution::Yes);
    let ix = claim_market(cfg.program_id, voter_a.key, market.key, pred_a.key);
    let out = run(&cfg, &env(now + 20), vec![voter_a, market, pred_a], ix.data.clone())
        .expect("first claim succeeds");
    // The reclaimed record no longer decodes as a prediction, so a
    // second claim for the same (market, voter) pair fails.
    let r = run(
        &cfg,
        &env(now + 30),
        vec![out[0].clone(), out[1].clone(), out[2].clone()],
        ix.data,
    );
    assert_eq!(r, Err(ProgramFailure::InvalidRecordData));
}

/// Documents the behavior as deployed: resolver reassignment asks only
/// for a signature, so any signer can take over a market's resolver
/// rights.  This is flagged in the library as a probable authorization
/// gap; this test asserts the current behavior, not the likely intent.
#[test]
fn set_market_resolver_requires_only_a_signature() {
    let cfg = config();
    let (_, market) = created_market(&cfg, 1000, 1060);
    let data = HitMyBetInstruction::SetMarketResolverAdmin { version: PROGRAM_VERSION }.pack();
    let out = run(&cfg, &env(1010), vec![wallet(addr(8), 0), market], data)
        .expect("any signer may reassign the resolver");
    let market = out[1].clone();
    assert_eq!(decoded_market(&market).resolver.bytes, [8; 32]);
    // The previously stored resolver has lost its rights.
    let ix = resolve_market(cfg.program_id, addr(3), market.key, MarketResolution::Yes);
    let r = run(&cfg, &env(1020), vec![wallet(addr(3), 0), market.clone()], ix.data);
    assert_eq!(r, Err(ProgramFailure::Custom(HitMyBetError::InvalidResolver)));
    // The hijacker can resolve.
    let market = resolved(&cfg, 1020, market, wallet(addr(8), 0), MarketResolution::Tie);
    assert_eq!(decoded_market(&market).resolution, MarketResolution::Tie);
}

#[test]
fn version_mismatch_rejected() {
    let cfg = config();
    let (_, market) = created_market(&cfg, 1000, 1060);
    // A claim instruction carrying version 2.
    let r = run(&cfg, &env(1010), vec![wallet(addr(10), 0), market, empty_account(addr(12))], vec![3, 2]);
    assert_eq!(r, Err(ProgramFailure::Custom(HitMyBetError::VersionMismatch)));
}

#[test]
fn stale_record_version_rejected() {
    let cfg = config();
    let (_, mut market) = created_market(&cfg, 1000, 1060);
    // A record written under a different protocol version is a version
    // mismatch, not a decode failure.
    let mut m = decoded_market(&market);
    m.version = 2;
    market.data = hit_my_bet::state::prediction_market::pack_market(&m);
    let ix = resolve_market(cfg.program_id, addr(3), market.key, MarketResolution::Yes);
    let r = run(&cfg, &env(1010), vec![wallet(addr(3), 0), market], ix.data);
    assert_eq!(r, Err(ProgramFailure::Custom(HitMyBetError::VersionMismatch)));
}

#[test]
fn wrong_target_program_rejected() {
    let cfg = config();
    let data = HitMyBetInstruction::ClaimMarket { version: PROGRAM_VERSION }.pack();
    let accounts = vec![wallet(addr(10), 0)];
    let r = process_instruction(&cfg, &env(0), &addr(6), &accounts, &data);
    assert_eq!(r, Err(ProgramFailure::Custom(HitMyBetError::IncorrectProgramId)));
}

#[test]
fn placeholder_vote_and_resolution_rejected() {
    let cfg = config();
    let (_, market) = created_market(&cfg, 1000, 1060);
    // MakePrediction with the Unspecified vote.
    let r = run(
        &cfg,
        &env(1010),
        vec![wallet(addr(10), 1_000_000_000), market.clone(), empty_account(addr(12)), system_account()],
        vec![1, 1, 0, 5, 0],
    );
    assert_eq!(r, Err(ProgramFailure::Custom(HitMyBetError::InstructionUnpackError)));
    // ResolveMarket with the Unresolved resolution.
    let r = run(&cfg, &env(1010), vec![wallet(addr(3), 0), market], vec![2, 1, 0]);
    assert_eq!(r, Err(ProgramFailure::Custom(HitMyBetError::InstructionUnpackError)));
}

#[test]
fn malformed_instruction_rejected() {
    let cfg = config();
    let r = run(&cfg, &env(0), Vec::new(), vec![77]);
    assert_eq!(r, Err(ProgramFailure::Custom(HitMyBetError::InstructionUnpackError)));
}

#[test]
fn not_enough_accounts_rejected() {
    let cfg = config();
    let (market_key, _) = market_pda(&MARKET_ID, &cfg);
    let ix = init_prediction_market(cfg.program_id, addr(1), market_key, addr(3), MARKET_ID, 1);
    let r = run(
        &cfg,
        &env(0),
        vec![wallet(addr(1), 0), empty_account(market_key), wallet(addr(3), 0)],
        ix.data,
    );
    assert_eq!(r, Err(ProgramFailure::NotEnoughAccounts));
}

#[test]
fn missing_signer_rejected() {
    let cfg = config();
    let (market_key, _) = market_pda(&MARKET_ID, &cfg);
    let ix = init_prediction_market(cfg.program_id, addr(1), market_key, addr(3), MARKET_ID, 1);
    let mut creator = wallet(addr(1), 10_000_000_000);
    creator.is_signer = false;
    let r = run(
        &cfg,
        &env(0),
        vec![creator, empty_account(market_key), wallet(addr(3), 0), system_account()],
        ix.data.clone(),
    );
    assert_eq!(r, Err(ProgramFailure::Custom(HitMyBetError::InvalidSigner)));
    // The resolver must co-sign market creation too.
    let mut resolver = wallet(addr(3), 0);
    resolver.is_signer = false;
    let r = run(
        &cfg,
        &env(0),
        vec![wallet(addr(1), 10_000_000_000), empty_account(market_key), resolver, system_account()],
        ix.data,
    );
    assert_eq!(r, Err(ProgramFailure::Custom(HitMyBetError::InvalidSigner)));
}

#[test]
fn foreign_market_owner_rejected() {
    let cfg = config();
    let (_, mut market) = created_market(&cfg, 1000, 1060);
    market.owner = addr(13);
    let ix = resolve_market(cfg.program_id, addr(3), market.key, MarketResolution::Yes);
    let r = run(&cfg, &env(1010), vec![wallet(addr(3), 0), market], ix.data);
    assert_eq!(r, Err(ProgramFailure::Custom(HitMyBetError::InvalidMarketOwner)));
}

#[test]
fn insufficient_creator_funds_rejected() {
    let cfg = config();
    let (market_key, _) = market_pda(&MARKET_ID, &cfg);
    let ix = init_prediction_market(cfg.program_id, addr(1), market_key, addr(3), MARKET_ID, 1);
    let r = run(
        &cfg,
        &env(0),
        vec![wallet(addr(1), 100), empty_account(market_key), wallet(addr(3), 0), system_account()],
        ix.data,
    );
    assert_eq!(r, Err(ProgramFailure::InsufficientFunds));
}

#[test]
fn insufficient_voter_funds_rejected() {
    let cfg = config();
    let now: i64 = 1000;
    let (_, market) = created_market(&cfg, now, now + 60);
    let voter = wallet(addr(10), PREDICTION_RESERVE + VOTE_PRICE - 1);
    let (pred_key, _) = prediction_pda(&market.key, &voter.key, &cfg);
    let ix = make_prediction(cfg.program_id, voter.key, market.key, pred_key, UserVote::Yes, 1);
    let r = run(
        &cfg,
        &env(now),
        vec![voter, market, empty_account(pred_key), system_account()],
        ix.data,
    );
    assert_eq!(r, Err(ProgramFailure::InsufficientFunds));
}
