//! Persisted record types and the protocol's constants.

use vstd::prelude::*;

pub mod prediction_market;
pub mod user_prediction;

pub use prediction_market::{
    InitPredictionMarketParams, MarketResolution, MarketView, PredictionMarket,
    MARKET_RECORD_LEN,
};
pub use user_prediction::{UserPrediction, UserVote, USER_PREDICTION_RECORD_LEN};

verus! {

/// The record version written before a record is initialized.
pub const UNINITIALIZED_VERSION: u8 = 0;

/// The protocol version every instruction and record must carry.
pub const PROGRAM_VERSION: u8 = 1;

/// The smallest indivisible units in one whole token of the host ledger.
pub const LAMPORTS_PER_SOL: u64 = 1_000_000_000;

/// The standard fee charged on market creation.
pub const CREATE_MARKET_FEE: u64 = LAMPORTS_PER_SOL / 10;

/// The standard stake charged per vote.
pub const VOTE_PRICE: u64 = LAMPORTS_PER_SOL / 10;

} // verus!
