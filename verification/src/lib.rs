//! A deterministic state-transition core for a binary ("Yes"/"No")
//! prediction market.
//!
//! Users stake a fixed price per vote on one outcome while a market is
//! open; an appointed resolver settles the outcome; winners withdraw a
//! floor-divided share of the losing pool plus their principal.  The
//! library decides, for a parsed instruction and the set of referenced
//! account records, whether the operation is legal and what the records
//! must become; the host ledger, the clock and the minimum-balance
//! oracle are outside collaborators whose readings are passed in.

use vstd::prelude::*;

pub mod addr;
pub mod codec;
pub mod entrypoint;
pub mod error;
pub mod instruction;
pub mod payout;
pub mod processor;
pub mod state;

use crate::addr::Address;

verus! {

/// Process-wide immutable configuration: the program's own identity, the
/// identity allowed to resolve any market, and the protocol's economic
/// constants.  Injected by the caller so that test environments can
/// substitute values.
#[derive(Clone, Copy, Debug)]
pub struct ProgramConfig {
    /// The identity this program is deployed under; it owns every market
    /// and user-prediction record.
    pub program_id: Address,
    /// The fixed administrative identity that may resolve any market.
    pub admin_resolver: Address,
    /// The stake charged per vote cast.
    pub vote_price: u64,
    /// The fee added to a new market record's reserve.
    pub create_market_fee: u64,
}

/// The mathematical value of a [`ProgramConfig`].
#[verifier::ext_equal]
pub struct ConfigView {
    pub program_id: Seq<u8>,
    pub admin_resolver: Seq<u8>,
    pub vote_price: u64,
    pub create_market_fee: u64,
}

impl View for ProgramConfig {
    type V = ConfigView;

    open spec fn view(&self) -> ConfigView {
        ConfigView {
            program_id: self.program_id@,
            admin_resolver: self.admin_resolver@,
            vote_price: self.vote_price,
            create_market_fee: self.create_market_fee,
        }
    }
}

impl ProgramConfig {
    /// True exactly when `key` is this program's own identity.
    pub fn check_id(&self, key: &Address) -> (r: bool)
        ensures
            r == (key@ == self@.program_id),
    {
        crate::addr::address_eq(key, &self.program_id)
    }
}

} // verus!
