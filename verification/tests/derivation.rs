use hit_my_bet::addr::{
    address_eq, find_market_address, find_user_prediction_address, system_program_id, Address,
};
use hit_my_bet::error::{HitMyBetError, ProgramFailure};
use hit_my_bet::instruction::init_prediction_market;
use hit_my_bet::processor::{process_instruction, AccountRecord, HostParams};
use hit_my_bet::state::{CREATE_MARKET_FEE, VOTE_PRICE};
use hit_my_bet::ProgramConfig;

const MARKET_ID: [u8; 16] = *b"market_id_16_chr";

fn addr(b: u8) -> Address {
    Address { bytes: [b; 32] }
}

fn config() -> ProgramConfig {
    ProgramConfig {
        program_id: addr(7),
        admin_resolver: addr(9),
        vote_price: VOTE_PRICE,
        create_market_fee: CREATE_MARKET_FEE,
    }
}

#[test]
fn address_eq_compares_bytes() {
    assert!(address_eq(&addr(5), &addr(5)));
    assert!(!address_eq(&addr(5), &addr(6)));
    let mut almost = addr(5);
    almost.bytes[31] = 6;
    assert!(!address_eq(&addr(5), &almost));
}

#[test]
fn system_program_id_is_all_zeros() {
    assert_eq!(system_program_id().bytes, [0u8; 32]);
}

/// The library's derivation is the host's: for both seed families it
/// returns exactly what the address-derivation primitive computes from
/// the seed bytes, not anything echoed back from its inputs.
#[test]
fn derivation_matches_host_primitive() {
    let program = addr(7);
    let host_program = solana_program::pubkey::Pubkey::new_from_array(program.bytes);

    let (market_key, market_bump) =
        find_market_address(&MARKET_ID, &program).expect("a market address derives");
    let (host_key, host_bump) = solana_program::pubkey::Pubkey::find_program_address(
        &[b"prediction_market", &MARKET_ID],
        &host_program,
    );
    assert_eq!(market_key.bytes, host_key.to_bytes());
    assert_eq!(market_bump, host_bump);
    // The derived address is none of the inputs.
    assert_ne!(market_key.bytes, program.bytes);
    assert_ne!(market_key.bytes[0..16], MARKET_ID[..]);

    let voter = addr(10);
    let (pred_key, pred_bump) =
        find_user_prediction_address(&market_key, &voter, &program).expect("a record address derives");
    let (host_pred, host_pred_bump) = solana_program::pubkey::Pubkey::find_program_address(
        &[b"user_prediction", &market_key.bytes, &voter.bytes],
        &host_program,
    );
    assert_eq!(pred_key.bytes, host_pred.to_bytes());
    assert_eq!(pred_bump, host_pred_bump);

    // Different market ids derive different addresses.
    let (other_key, _) = find_market_address(b"other_market_id_", &program).expect("derives");
    assert_ne!(other_key.bytes, market_key.bytes);
}

/// Supplying any account other than the derived one at the market
/// position is rejected, whatever else is right about the request.
#[test]
fn substituted_market_account_rejected() {
    let cfg = config();
    let env = HostParams { now: 0, market_reserve: 2_000_000, prediction_reserve: 1_000_000 };
    let imposter = addr(12);
    let ix = init_prediction_market(cfg.program_id, addr(1), imposter, addr(3), MARKET_ID, 1);
    let accounts = vec![
        AccountRecord {
            key: addr(1),
            is_signer: true,
            lamports: 10_000_000_000,
            owner: system_program_id(),
            data: Vec::new(),
        },
        AccountRecord {
            key: imposter,
            is_signer: false,
            lamports: 0,
            owner: system_program_id(),
            data: Vec::new(),
        },
        AccountRecord {
            key: addr(3),
            is_signer: true,
            lamports: 0,
            owner: system_program_id(),
            data: Vec::new(),
        },
        AccountRecord {
            key: system_program_id(),
            is_signer: false,
            lamports: 1,
            owner: system_program_id(),
            data: Vec::new(),
        },
    ];
    let r = process_instruction(&cfg, &env, &cfg.program_id, &accounts, &ix.data);
    assert_eq!(
        r,
        Err(ProgramFailure::Custom(HitMyBetError::InvalidProgramDerivedAddress))
    );
}
