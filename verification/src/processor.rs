//! The market lifecycle state machine.
//!
//! Each operation decides, from the instruction's own inputs, the
//! referenced account records and the host oracles' readings, whether it
//! is legal and what the records must become.  Every function here is
//! total and effect-free: it returns either the full list of account
//! records as they must be persisted, or the failure that aborts the
//! invocation with nothing changed.

use vstd::prelude::*;

use crate::addr::{
    address_eq, find_market_address, find_user_prediction_address, spec_market_address,
    spec_system_program_id, spec_user_prediction_address, system_program_id, Address,
};
use crate::codec::clone_bytes;
use crate::error::{HitMyBetError, ProgramFailure};
use crate::instruction::{spec_unpack_instruction, InstructionView};
use crate::state::prediction_market::{
    market_view_wf, pack_market, spec_pack_market, spec_unpack_market, unpack_market,
    InitPredictionMarketParams, MarketResolution, MarketView, PredictionMarket,
};
use crate::state::user_prediction::{
    pack_prediction, spec_pack_prediction, spec_unpack_prediction, unpack_prediction,
    UserPrediction, UserVote,
};
use crate::state::PROGRAM_VERSION;
use crate::ConfigView;
use crate::ProgramConfig;

verus! {

/// One account record as the invocation sees it: its address, whether
/// its holder co-signed the invocation, its balance, its owning program
/// and its data bytes.
#[derive(Clone, Debug, PartialEq, Eq)]
pub struct AccountRecord {
    pub key: Address,
    pub is_signer: bool,
    pub lamports: u64,
    pub owner: Address,
    pub data: Vec<u8>,
}

/// The mathematical value of an [`AccountRecord`].
#[verifier::ext_equal]
pub struct AccountView {
    pub key: Seq<u8>,
    pub is_signer: bool,
    pub lamports: u64,
    pub owner: Seq<u8>,
    pub data: Seq<u8>,
}

impl View for AccountRecord {
    type V = AccountView;

    open spec fn view(&self) -> AccountView {
        AccountView {
            key: self.key@,
            is_signer: self.is_signer,
            lamports: self.lamports,
            owner: self.owner@,
            data: self.data@,
        }
    }
}

/// The views of a whole account list.
pub open spec fn views_of(accounts: Seq<AccountRecord>) -> Seq<AccountView> {
    accounts.map_values(|a: AccountRecord| a@)
}

/// The host oracles' readings for one invocation: the clock's current
/// timestamp and the minimum-balance oracle's quotes for the two record
/// sizes this program creates.
#[derive(Clone, Copy, Debug, PartialEq, Eq, Structural)]
pub struct HostParams {
    pub now: i64,
    pub market_reserve: u64,
    pub prediction_reserve: u64,
}

/// A fresh copy of an account record.
fn clone_account(a: &AccountRecord) -> (r: AccountRecord)
    ensures
        r@ == a@,
{
    let r = AccountRecord {
        key: a.key,
        is_signer: a.is_signer,
        lamports: a.lamports,
        owner: a.owner,
        data: clone_bytes(&a.data),
    };
    assert(r@ =~= a@);
    r
}

/// Appends fresh copies of `accounts[from..]` to `out`.
fn extend_cloned_from(out: &mut Vec<AccountRecord>, accounts: &Vec<AccountRecord>, from: usize)
    requires
        from <= accounts@.len(),
    ensures
        final(out)@.len() == old(out)@.len() + (accounts@.len() - from),
        forall|j: int| 0 <= j < old(out)@.len() ==> final(out)@[j]@ == old(out)@[j]@,
        forall|j: int|
            from <= j < accounts@.len() ==> final(out)@[old(out)@.len() + (j - from)]@
                == accounts@[j]@,
{
    let mut i: usize = from;
    while i < accounts.len()
        invariant
            from <= i <= accounts@.len(),
            out@.len() == old(out)@.len() + (i - from),
            forall|j: int| 0 <= j < old(out)@.len() ==> out@[j]@ == old(out)@[j]@,
            forall|j: int|
                from <= j < i ==> out@[old(out)@.len() + (j - from)]@ == accounts@[j]@,
        decreases accounts@.len() - i,
    {
        out.push(clone_account(&accounts[i]));
        i += 1;
    }
}

/// The market record read from an account's bytes: its leading bytes
/// must decode and the record must carry the protocol's version.
pub open spec fn spec_read_market(d: Seq<u8>) -> Result<MarketView, ProgramFailure> {
    match spec_unpack_market(d) {
        None => Err(ProgramFailure::InvalidRecordData),
        Some(m) => if m.version != PROGRAM_VERSION {
            Err(ProgramFailure::Custom(HitMyBetError::VersionMismatch))
        } else {
            Ok(m)
        },
    }
}

/// Reads and version-checks a market record.
fn read_market(d: &Vec<u8>) -> (r: Result<PredictionMarket, ProgramFailure>)
    ensures
        match r {
            Ok(m) => spec_read_market(d@) == Ok::<MarketView, ProgramFailure>(m@)
                && market_view_wf(m@),
            Err(e) => spec_read_market(d@) == Err::<MarketView, ProgramFailure>(e),
        },
{
    match unpack_market(d) {
        None => Err(ProgramFailure::InvalidRecordData),
        Some(m) => {
            if m.version != PROGRAM_VERSION {
                Err(ProgramFailure::Custom(HitMyBetError::VersionMismatch))
            } else {
                Ok(m)
            }
        },
    }
}

/// The prediction record read from an account's bytes: its leading
/// bytes must decode and the record must carry the protocol's version.
pub open spec fn spec_read_prediction(d: Seq<u8>) -> Result<UserPrediction, ProgramFailure> {
    match spec_unpack_prediction(d) {
        None => Err(ProgramFailure::InvalidRecordData),
        Some(p) => if p.version != PROGRAM_VERSION {
            Err(ProgramFailure::Custom(HitMyBetError::VersionMismatch))
        } else {
            Ok(p)
        },
    }
}

/// Reads and version-checks a prediction record.
fn read_prediction(d: &Vec<u8>) -> (r: Result<UserPrediction, ProgramFailure>)
    ensures
        match r {
            Ok(p) => spec_read_prediction(d@) == Ok::<UserPrediction, ProgramFailure>(p),
            Err(e) => spec_read_prediction(d@) == Err::<UserPrediction, ProgramFailure>(e),
        },
{
    match unpack_prediction(d) {
        None => Err(ProgramFailure::InvalidRecordData),
        Some(p) => {
            if p.version != PROGRAM_VERSION {
                Err(ProgramFailure::Custom(HitMyBetError::VersionMismatch))
            } else {
                Ok(p)
            }
        },
    }
}

/// Rejects a market record owned by any program but this one.
fn assert_market_owner(config: &ProgramConfig, owner: &Address) -> (r: Result<
    (),
    HitMyBetError,
>)
    ensures
        r is Ok <==> owner@ == config@.program_id,
        r is Err ==> r->Err_0 == HitMyBetError::InvalidMarketOwner,
{
    if !config.check_id(owner) {
        Err(HitMyBetError::InvalidMarketOwner)
    } else {
        Ok(())
    }
}

/// Rejects an account that is not the generic account allocator.
fn assert_system_program(key: &Address) -> (r: Result<(), HitMyBetError>)
    ensures
        r is Ok <==> key@ == spec_system_program_id(),
        r is Err ==> r->Err_0 == HitMyBetError::IncorrectProgramId,
{
    let sys = system_program_id();
    if !address_eq(key, &sys) {
        Err(HitMyBetError::IncorrectProgramId)
    } else {
        Ok(())
    }
}

/// What market creation must decide and produce: creator and resolver
/// co-sign; the allocator account is genuine; the supplied market
/// account sits at the derived address and holds no record yet; the
/// creator funds the record's reserve plus the creation fee; the new
/// record starts unresolved with zero counts.
pub open spec fn spec_init_prediction_market(
    cfg: ConfigView,
    env: HostParams,
    program_id: Seq<u8>,
    accounts: Seq<AccountView>,
    market_id: Seq<u8>,
    open_until: i64,
) -> Result<Seq<AccountView>, ProgramFailure> {
    if accounts.len() < 4 {
        Err(ProgramFailure::NotEnoughAccounts)
    } else {
        let creator = accounts[0];
        let market = accounts[1];
        let resolver = accounts[2];
        let system = accounts[3];
        if !creator.is_signer {
            Err(ProgramFailure::Custom(HitMyBetError::InvalidSigner))
        } else if !resolver.is_signer {
            Err(ProgramFailure::Custom(HitMyBetError::InvalidSigner))
        } else if system.key != spec_system_program_id() {
            Err(ProgramFailure::Custom(HitMyBetError::IncorrectProgramId))
        } else {
            match spec_market_address(program_id, market_id) {
                None => Err(ProgramFailure::Custom(HitMyBetError::InvalidProgramDerivedAddress)),
                Some((pda, bump)) => {
                    if market.key != pda {
                        Err(ProgramFailure::Custom(HitMyBetError::InvalidProgramDerivedAddress))
                    } else if market.data.len() != 0 {
                        Err(ProgramFailure::Custom(HitMyBetError::AlreadyInitialized))
                    } else {
                        let reserve = env.market_reserve + cfg.create_market_fee;
                        if creator.lamports < reserve {
                            Err(ProgramFailure::InsufficientFunds)
                        } else {
                            let record = MarketView {
                                version: PROGRAM_VERSION,
                                bump_seed: bump,
                                resolver: resolver.key,
                                num_yes: 0,
                                num_no: 0,
                                balance_yes: 0,
                                balance_no: 0,
                                resolution: MarketResolution::Unresolved,
                                open_until,
                            };
                            Ok(
                                accounts.update(
                                    0,
                                    AccountView {
                                        key: creator.key,
                                        is_signer: creator.is_signer,
                                        lamports: (creator.lamports - reserve) as u64,
                                        owner: creator.owner,
                                        data: creator.data,
                                    },
                                ).update(
                                    1,
                                    AccountView {
                                        key: market.key,
                                        is_signer: market.is_signer,
                                        lamports: (market.lamports + reserve) as u64,
                                        owner: program_id,
                                        data: spec_pack_market(record),
                                    },
                                ),
                            )
                        }
                    }
                },
            }
        }
    }
}

/// The machine-width bounds market creation's arithmetic needs.
pub open spec fn spec_init_fits(
    cfg: ConfigView,
    env: HostParams,
    accounts: Seq<AccountView>,
) -> bool {
    env.market_reserve + cfg.create_market_fee <= u64::MAX && (accounts.len() >= 4
        ==> accounts[1].lamports + env.market_reserve + cfg.create_market_fee <= u64::MAX)
}

/// Creates a market record at its derived address.
pub fn process_init_prediction_market(
    config: &ProgramConfig,
    env: &HostParams,
    program_id: &Address,
    accounts: &Vec<AccountRecord>,
    market_id: &[u8; 16],
    open_until: i64,
) -> (r: Result<Vec<AccountRecord>, ProgramFailure>)
    requires
        spec_init_fits(config@, *env, views_of(accounts@)),
    ensures
        ({
            let s = spec_init_prediction_market(
                config@,
                *env,
                program_id@,
                views_of(accounts@),
                market_id@,
                open_until,
            );
            match r {
                Ok(out) => s == Ok::<Seq<AccountView>, ProgramFailure>(views_of(out@)),
                Err(e) => s == Err::<Seq<AccountView>, ProgramFailure>(e),
            }
        }),
{
    if accounts.len() < 4 {
        return Err(ProgramFailure::NotEnoughAccounts);
    }
    if !accounts[0].is_signer {
        return Err(ProgramFailure::Custom(HitMyBetError::InvalidSigner));
    }
    if !accounts[2].is_signer {
        return Err(ProgramFailure::Custom(HitMyBetError::InvalidSigner));
    }
    match assert_system_program(&accounts[3].key) {
        Err(e) => {
            return Err(ProgramFailure::Custom(e));
        },
        Ok(()) => {},
    }
    let (pda, bump) = match find_market_address(market_id, program_id) {
        None => {
            return Err(ProgramFailure::Custom(HitMyBetError::InvalidProgramDerivedAddress));
        },
        Some(p) => p,
    };
    if !address_eq(&accounts[1].key, &pda) {
        return Err(ProgramFailure::Custom(HitMyBetError::InvalidProgramDerivedAddress));
    }
    if accounts[1].data.len() != 0 {
        return Err(ProgramFailure::Custom(HitMyBetError::AlreadyInitialized));
    }
    let reserve: u64 = env.market_reserve + config.create_market_fee;
    if accounts[0].lamports < reserve {
        return Err(ProgramFailure::InsufficientFunds);
    }
    let record = PredictionMarket::with_params(
        InitPredictionMarketParams {
            bump_seed: bump,
            resolver: accounts[2].key,
            open_until,
        },
    );
    let mut out: Vec<AccountRecord> = Vec::new();
    out.push(
        AccountRecord {
            key: accounts[0].key,
            is_signer: accounts[0].is_signer,
            lamports: accounts[0].lamports - reserve,
            owner: accounts[0].owner,
            data: clone_bytes(&accounts[0].data),
        },
    );
    out.push(
        AccountRecord {
            key: accounts[1].key,
            is_signer: accounts[1].is_signer,
            lamports: accounts[1].lamports + reserve,
            owner: *program_id,
            data: pack_market(&record),
        },
    );
    out.push(clone_account(&accounts[2]));
    out.push(clone_account(&accounts[3]));
    extend_cloned_from(&mut out, accounts, 4);
    proof {
        let s = spec_init_prediction_market(
            config@,
            *env,
            program_id@,
            views_of(accounts@),
            market_id@,
            open_until,
        );
        assert(views_of(out@) =~~= s.unwrap());
    }
    Ok(out)
}

/// What resolution must decide and produce: the market record is owned
/// by this program; the signer co-signed and is the market's stored
/// resolver; the market is still unresolved.  On success the resolution
/// is set and the open window is closed at the clock's reading; counts
/// and pools are untouched.
pub open spec fn spec_resolve_market(
    cfg: ConfigView,
    env: HostParams,
    accounts: Seq<AccountView>,
    resolution: MarketResolution,
) -> Result<Seq<AccountView>, ProgramFailure> {
    if accounts.len() < 2 {
        Err(ProgramFailure::NotEnoughAccounts)
    } else {
        let signer = accounts[0];
        let market_acc = accounts[1];
        if market_acc.owner != cfg.program_id {
            Err(ProgramFailure::Custom(HitMyBetError::InvalidMarketOwner))
        } else if !signer.is_signer {
            Err(ProgramFailure::Custom(HitMyBetError::InvalidSigner))
        } else {
            match spec_read_market(market_acc.data) {
                Err(e) => Err(e),
                Ok(m) => {
                    if m.resolver != signer.key {
                        Err(ProgramFailure::Custom(HitMyBetError::InvalidResolver))
                    } else if m.resolution != MarketResolution::Unresolved {
                        Err(ProgramFailure::Custom(HitMyBetError::MarketIsResolved))
                    } else {
                        let settled = MarketView { resolution, open_until: env.now, ..m };
                        Ok(
                            accounts.update(
                                1,
                                AccountView { data: spec_pack_market(settled), ..market_acc },
                            ),
                        )
                    }
                },
            }
        }
    }
}

/// Settles a market's outcome on the stored resolver's say-so.
pub fn process_resolve_market(
    config: &ProgramConfig,
    env: &HostParams,
    accounts: &Vec<AccountRecord>,
    resolution: MarketResolution,
) -> (r: Result<Vec<AccountRecord>, ProgramFailure>)
    ensures
        ({
            let s = spec_resolve_market(config@, *env, views_of(accounts@), resolution);
            match r {
                Ok(out) => s == Ok::<Seq<AccountView>, ProgramFailure>(views_of(out@)),
                Err(e) => s == Err::<Seq<AccountView>, ProgramFailure>(e),
            }
        }),
{
    if accounts.len() < 2 {
        return Err(ProgramFailure::NotEnoughAccounts);
    }
    match assert_market_owner(config, &accounts[1].owner) {
        Err(e) => {
            return Err(ProgramFailure::Custom(e));
        },
        Ok(()) => {},
    }
    if !accounts[0].is_signer {
        return Err(ProgramFailure::Custom(HitMyBetError::InvalidSigner));
    }
    let market = match read_market(&accounts[1].data) {
        Err(e) => {
            return Err(e);
        },
        Ok(m) => m,
    };
    if !address_eq(&market.resolver, &accounts[0].key) {
        return Err(ProgramFailure::Custom(HitMyBetError::InvalidResolver));
    }
    if !matches!(market.resolution, MarketResolution::Unresolved) {
        return Err(ProgramFailure::Custom(HitMyBetError::MarketIsResolved));
    }
    let settled = PredictionMarket { resolution, open_until: env.now, ..market };
    let mut out: Vec<AccountRecord> = Vec::new();
    out.push(clone_account(&accounts[0]));
    out.push(
        AccountRecord {
            key: accounts[1].key,
            is_signer: accounts[1].is_signer,
            lamports: accounts[1].lamports,
            owner: accounts[1].owner,
            data: pack_market(&settled),
        },
    );
    extend_cloned_from(&mut out, accounts, 2);
    proof {
        let s = spec_resolve_market(config@, *env, views_of(accounts@), resolution);
        assert(settled@ =~= (MarketView { resolution, open_until: env.now, ..market@ }));
        assert(views_of(out@) =~~= s.unwrap());
    }
    Ok(out)
}

/// What administrative resolution must decide and produce: as
/// [`spec_resolve_market`], except that the signer must be the fixed
/// administrative identity instead of the market's stored resolver.
pub open spec fn spec_resolve_market_admin(
    cfg: ConfigView,
    env: HostParams,
    accounts: Seq<AccountView>,
    resolution: MarketResolution,
) -> Result<Seq<AccountView>, ProgramFailure> {
    if accounts.len() < 2 {
        Err(ProgramFailure::NotEnoughAccounts)
    } else {
        let signer = accounts[0];
        let market_acc = accounts[1];
        if market_acc.owner != cfg.program_id {
            Err(ProgramFailure::Custom(HitMyBetError::InvalidMarketOwner))
        } else if !signer.is_signer {
            Err(ProgramFailure::Custom(HitMyBetError::InvalidSigner))
        } else {
            match spec_read_market(market_acc.data) {
                Err(e) => Err(e),
                Ok(m) => {
                    if signer.key != cfg.admin_resolver {
                        Err(ProgramFailure::Custom(HitMyBetError::InvalidResolver))
                    } else if m.resolution != MarketResolution::Unresolved {
                        Err(ProgramFailure::Custom(HitMyBetError::MarketIsResolved))
                    } else {
                        let settled = MarketView { resolution, open_until: env.now, ..m };
                        Ok(
                            accounts.update(
                                1,
                                AccountView { data: spec_pack_market(settled), ..market_acc },
                            ),
                        )
                    }
                },
            }
        }
    }
}

/// Settles a market's outcome on the administrative identity's say-so.
pub fn process_resolve_market_admin(
    config: &ProgramConfig,
    env: &HostParams,
    accounts: &Vec<AccountRecord>,
    resolution: MarketResolution,
) -> (r: Result<Vec<AccountRecord>, ProgramFailure>)
    ensures
        ({
            let s = spec_resolve_market_admin(config@, *env, views_of(accounts@), resolution);
            match r {
                Ok(out) => s == Ok::<Seq<AccountView>, ProgramFailure>(views_of(out@)),
                Err(e) => s == Err::<Seq<AccountView>, ProgramFailure>(e),
            }
        }),
{
    if accounts.len() < 2 {
        return Err(ProgramFailure::NotEnoughAccounts);
    }
    match assert_market_owner(config, &accounts[1].owner) {
        Err(e) => {
            return Err(ProgramFailure::Custom(e));
        },
        Ok(()) => {},
    }
    if !accounts[0].is_signer {
        return Err(ProgramFailure::Custom(HitMyBetError::InvalidSigner));
    }
    let market = match read_market(&accounts[1].data) {
        Err(e) => {
            return Err(e);
        },
        Ok(m) => m,
    };
    if !address_eq(&accounts[0].key, &config.admin_resolver) {
        return Err(ProgramFailure::Custom(HitMyBetError::InvalidResolver));
    }
    if !matches!(market.resolution, MarketResolution::Unresolved) {
        return Err(ProgramFailure::Custom(HitMyBetError::MarketIsResolved));
    }
    let settled = PredictionMarket { resolution, open_until: env.now, ..market };
    let mut out: Vec<AccountRecord> = Vec::new();
    out.push(clone_account(&accounts[0]));
    out.push(
        AccountRecord {
            key: accounts[1].key,
            is_signer: accounts[1].is_signer,
            lamports: accounts[1].lamports,
            owner: accounts[1].owner,
            data: pack_market(&settled),
        },
    );
    extend_cloned_from(&mut out, accounts, 2);
    proof {
        let s = spec_resolve_market_admin(config@, *env, views_of(accounts@), resolution);
        assert(settled@ =~= (MarketView { resolution, open_until: env.now, ..market@ }));
        assert(views_of(out@) =~~= s.unwrap());
    }
    Ok(out)
}

/// What voting must decide and produce: the voter co-signed; the market
/// record is owned by this program; the allocator account is genuine;
/// the supplied prediction account sits at the derived address for this
/// (market, voter) pair; the market is unresolved and its open window
/// has not passed.  A first vote creates the prediction record at the
/// voter's cost; the stake moves from the voter into the market's held
/// balance; the market's and the voter's per-outcome counters grow by
/// the vote count and the pools by the stake.
pub open spec fn spec_make_prediction(
    cfg: ConfigView,
    env: HostParams,
    program_id: Seq<u8>,
    accounts: Seq<AccountView>,
    vote: UserVote,
    num_votes: u16,
) -> Result<Seq<AccountView>, ProgramFailure> {
    if accounts.len() < 4 {
        Err(ProgramFailure::NotEnoughAccounts)
    } else {
        let voter = accounts[0];
        let market_acc = accounts[1];
        let pred_acc = accounts[2];
        let system = accounts[3];
        if !voter.is_signer {
            Err(ProgramFailure::Custom(HitMyBetError::InvalidSigner))
        } else if market_acc.owner != cfg.program_id {
            Err(ProgramFailure::Custom(HitMyBetError::InvalidMarketOwner))
        } else if system.key != spec_system_program_id() {
            Err(ProgramFailure::Custom(HitMyBetError::IncorrectProgramId))
        } else {
            match spec_user_prediction_address(program_id, market_acc.key, voter.key) {
                None => Err(ProgramFailure::Custom(HitMyBetError::InvalidProgramDerivedAddress)),
                Some((pda, bump)) => {
                    if pred_acc.key != pda {
                        Err(ProgramFailure::Custom(HitMyBetError::InvalidProgramDerivedAddress))
                    } else {
                        match spec_read_market(market_acc.data) {
                            Err(e) => Err(e),
                            Ok(m) => {
                                if m.resolution != MarketResolution::Unresolved {
                                    Err(ProgramFailure::Custom(HitMyBetError::MarketIsResolved))
                                } else if env.now >= m.open_until {
                                    Err(ProgramFailure::Custom(HitMyBetError::MarketIsClosed))
                                } else {
                                    spec_make_prediction_record_step(
                                        cfg,
                                        env,
                                        program_id,
                                        accounts,
                                        vote,
                                        num_votes,
                                        m,
                                        bump,
                                    )
                                }
                            },
                        }
                    }
                },
            }
        }
    }
}

/// The tail of [`spec_make_prediction`] once the market is known open:
/// find or create the voter's prediction record, move the stake, and
/// grow the counters.
pub open spec fn spec_make_prediction_record_step(
    cfg: ConfigView,
    env: HostParams,
    program_id: Seq<u8>,
    accounts: Seq<AccountView>,
    vote: UserVote,
    num_votes: u16,
    m: MarketView,
    bump: u8,
) -> Result<Seq<AccountView>, ProgramFailure> {
    let voter = accounts[0];
    let market_acc = accounts[1];
    let pred_acc = accounts[2];
    let created = pred_acc.data.len() == 0;
    if created && voter.lamports < env.prediction_reserve {
        Err(ProgramFailure::InsufficientFunds)
    } else if !created && spec_read_prediction(pred_acc.data) is Err {
        Err(spec_read_prediction(pred_acc.data)->Err_0)
    } else {
        let p = if created {
            UserPrediction {
                version: PROGRAM_VERSION,
                bump_seed: bump,
                num_votes_yes: 0,
                num_votes_no: 0,
            }
        } else {
            spec_read_prediction(pred_acc.data)->Ok_0
        };
        let reserve: int = if created {
            env.prediction_reserve as int
        } else {
            0
        };
        let pred_owner = if created {
            program_id
        } else {
            pred_acc.owner
        };
        let bet = num_votes * cfg.vote_price;
        if voter.lamports - reserve < bet {
            Err(ProgramFailure::InsufficientFunds)
        } else {
            match vote {
                UserVote::Unspecified => Err(
                    ProgramFailure::Custom(HitMyBetError::InstructionUnpackError),
                ),
                UserVote::Yes => {
                    let m2 = MarketView {
                        balance_yes: (m.balance_yes + bet) as u64,
                        num_yes: (m.num_yes + num_votes) as u64,
                        ..m
                    };
                    let p2 = UserPrediction {
                        num_votes_yes: (p.num_votes_yes + num_votes) as u64,
                        ..p
                    };
                    Ok(
                        spec_make_prediction_updates(accounts, m2, p2, reserve, bet, pred_owner),
                    )
                },
                UserVote::No => {
                    let m2 = MarketView {
                        balance_no: (m.balance_no + bet) as u64,
                        num_no: (m.num_no + num_votes) as u64,
                        ..m
                    };
                    let p2 = UserPrediction {
                        num_votes_no: (p.num_votes_no + num_votes) as u64,
                        ..p
                    };
                    Ok(
                        spec_make_prediction_updates(accounts, m2, p2, reserve, bet, pred_owner),
                    )
                },
            }
        }
    }
}

/// The records a successful vote leaves behind: the voter paid the
/// reserve (on creation) and the stake; the market holds the stake and
/// the updated record; the prediction account holds the reserve and the
/// updated record.
pub open spec fn spec_make_prediction_updates(
    accounts: Seq<AccountView>,
    m2: MarketView,
    p2: UserPrediction,
    reserve: int,
    bet: int,
    pred_owner: Seq<u8>,
) -> Seq<AccountView> {
    let voter = accounts[0];
    let market_acc = accounts[1];
    let pred_acc = accounts[2];
    accounts.update(
        0,
        AccountView { lamports: (voter.lamports - reserve - bet) as u64, ..voter },
    ).update(
        1,
        AccountView {
            lamports: (market_acc.lamports + bet) as u64,
            data: spec_pack_market(m2),
            ..market_acc
        },
    ).update(
        2,
        AccountView {
            lamports: (pred_acc.lamports + reserve) as u64,
            owner: pred_owner,
            data: spec_pack_prediction(p2),
            ..pred_acc
        },
    )
}

/// The machine-width bounds voting's arithmetic needs.
pub open spec fn spec_make_prediction_fits(
    cfg: ConfigView,
    env: HostParams,
    accounts: Seq<AccountView>,
    num_votes: u16,
) -> bool {
    num_votes * cfg.vote_price <= u64::MAX && (accounts.len() >= 4 ==> {
        let market_acc = accounts[1];
        let pred_acc = accounts[2];
        let bet = num_votes * cfg.vote_price;
        market_acc.lamports + bet <= u64::MAX && pred_acc.lamports + env.prediction_reserve
            <= u64::MAX && (match spec_read_market(market_acc.data) {
            Ok(m) => m.balance_yes + bet <= u64::MAX && m.balance_no + bet <= u64::MAX
                && m.num_yes + num_votes <= u64::MAX && m.num_no + num_votes <= u64::MAX,
            Err(_) => true,
        }) && (match spec_read_prediction(pred_acc.data) {
            Ok(p) => p.num_votes_yes + num_votes <= u64::MAX && p.num_votes_no + num_votes
                <= u64::MAX,
            Err(_) => true,
        })
    })
}

/// Accepts a vote on an open market, creating the voter's prediction
/// record on their first vote.
pub fn process_make_prediction(
    config: &ProgramConfig,
    env: &HostParams,
    program_id: &Address,
    accounts: &Vec<AccountRecord>,
    vote: UserVote,
    num_votes: u16,
) -> (r: Result<Vec<AccountRecord>, ProgramFailure>)
    requires
        spec_make_prediction_fits(config@, *env, views_of(accounts@), num_votes),
    ensures
        ({
            let s = spec_make_prediction(
                config@,
                *env,
                program_id@,
                views_of(accounts@),
                vote,
                num_votes,
            );
            match r {
                Ok(out) => s == Ok::<Seq<AccountView>, ProgramFailure>(views_of(out@)),
                Err(e) => s == Err::<Seq<AccountView>, ProgramFailure>(e),
            }
        }),
{
    if accounts.len() < 4 {
        return Err(ProgramFailure::NotEnoughAccounts);
    }
    if !accounts[0].is_signer {
        return Err(ProgramFailure::Custom(HitMyBetError::InvalidSigner));
    }
    match assert_market_owner(config, &accounts[1].owner) {
        Err(e) => {
            return Err(ProgramFailure::Custom(e));
        },
        Ok(()) => {},
    }
    match assert_system_program(&accounts[3].key) {
        Err(e) => {
            return Err(ProgramFailure::Custom(e));
        },
        Ok(()) => {},
    }
    let (pda, bump) = match find_user_prediction_address(
        &accounts[1].key,
        &accounts[0].key,
        program_id,
    ) {
        None => {
            return Err(ProgramFailure::Custom(HitMyBetError::InvalidProgramDerivedAddress));
        },
        Some(p) => p,
    };
    if !address_eq(&accounts[2].key, &pda) {
        return Err(ProgramFailure::Custom(HitMyBetError::InvalidProgramDerivedAddress));
    }
    let market = match read_market(&accounts[1].data) {
        Err(e) => {
            return Err(e);
        },
        Ok(m) => m,
    };
    if !matches!(market.resolution, MarketResolution::Unresolved) {
        return Err(ProgramFailure::Custom(HitMyBetError::MarketIsResolved));
    }
    if env.now >= market.open_until {
        return Err(ProgramFailure::Custom(HitMyBetError::MarketIsClosed));
    }
    let created = accounts[2].data.len() == 0;
    let prediction: UserPrediction;
    let voter_lamports: u64;
    let pred_lamports: u64;
    let pred_owner: Address;
    if created {
        if accounts[0].lamports < env.prediction_reserve {
            return Err(ProgramFailure::InsufficientFunds);
        }
        prediction = UserPrediction::with_seed(bump);
        voter_lamports = accounts[0].lamports - env.prediction_reserve;
        pred_lamports = accounts[2].lamports + env.prediction_reserve;
        pred_owner = *program_id;
    } else {
        prediction = match read_prediction(&accounts[2].data) {
            Err(e) => {
                return Err(e);
            },
            Ok(p) => p,
        };
        voter_lamports = accounts[0].lamports;
        pred_lamports = accounts[2].lamports;
        pred_owner = accounts[2].owner;
    }
    let bet: u64 = (num_votes as u64) * config.vote_price;
    if voter_lamports < bet {
        return Err(ProgramFailure::InsufficientFunds);
    }
    let updated_market: PredictionMarket;
    let updated_prediction: UserPrediction;
    match vote {
        UserVote::Unspecified => {
            return Err(ProgramFailure::Custom(HitMyBetError::InstructionUnpackError));
        },
        UserVote::Yes => {
            updated_market = PredictionMarket {
                balance_yes: market.balance_yes + bet,
                num_yes: market.num_yes + num_votes as u64,
                ..market
            };
            updated_prediction = UserPrediction {
                num_votes_yes: prediction.num_votes_yes + num_votes as u64,
                ..prediction
            };
        },
        UserVote::No => {
            updated_market = PredictionMarket {
                balance_no: market.balance_no + bet,
                num_no: market.num_no + num_votes as u64,
                ..market
            };
            updated_prediction = UserPrediction {
                num_votes_no: prediction.num_votes_no + num_votes as u64,
                ..prediction
            };
        },
    }
    let mut out: Vec<AccountRecord> = Vec::new();
    out.push(
        AccountRecord {
            key: accounts[0].key,
            is_signer: accounts[0].is_signer,
            lamports: voter_lamports - bet,
            owner: accounts[0].owner,
            data: clone_bytes(&accounts[0].data),
        },
    );
    out.push(
        AccountRecord {
            key: accounts[1].key,
            is_signer: accounts[1].is_signer,
            lamports: accounts[1].lamports + bet,
            owner: accounts[1].owner,
            data: pack_market(&updated_market),
        },
    );
    out.push(
        AccountRecord {
            key: accounts[2].key,
            is_signer: accounts[2].is_signer,
            lamports: pred_lamports,
            owner: pred_owner,
            data: pack_prediction(&updated_prediction),
        },
    );
    out.push(clone_account(&accounts[3]));
    extend_cloned_from(&mut out, accounts, 4);
    proof {
        let s = spec_make_prediction(
            config@,
            *env,
            program_id@,
            views_of(accounts@),
            vote,
            num_votes,
        );
        assert(views_of(out@) =~~= s.unwrap());
    }
    Ok(out)
}

/// What resolver reassignment decides and produces: the market record
/// is owned by this program and the signer co-signed; the stored
/// resolver is then replaced by the signer.  Nothing requires the
/// signer to be the current resolver or the administrative identity, so
/// any signer can take over a market's resolver rights; this mirrors
/// the protocol as deployed and is flagged as a probable authorization
/// gap rather than silently tightened.
pub open spec fn spec_set_market_resolver_admin(
    cfg: ConfigView,
    accounts: Seq<AccountView>,
) -> Result<Seq<AccountView>, ProgramFailure> {
    if accounts.len() < 2 {
        Err(ProgramFailure::NotEnoughAccounts)
    } else {
        let signer = accounts[0];
        let market_acc = accounts[1];
        if market_acc.owner != cfg.program_id {
            Err(ProgramFailure::Custom(HitMyBetError::InvalidMarketOwner))
        } else if !signer.is_signer {
            Err(ProgramFailure::Custom(HitMyBetError::InvalidSigner))
        } else {
            match spec_read_market(market_acc.data) {
                Err(e) => Err(e),
                Ok(m) => {
                    let reassigned = MarketView { resolver: signer.key, ..m };
                    Ok(
                        accounts.update(
                            1,
                            AccountView { data: spec_pack_market(reassigned), ..market_acc },
                        ),
                    )
                },
            }
        }
    }
}

/// Replaces a market's stored resolver with the signer (see
/// [`spec_set_market_resolver_admin`] on the missing authorization
/// check).
pub fn process_set_market_resolver_admin(
    config: &ProgramConfig,
    accounts: &Vec<AccountRecord>,
) -> (r: Result<Vec<AccountRecord>, ProgramFailure>)
    ensures
        ({
            let s = spec_set_market_resolver_admin(config@, views_of(accounts@));
            match r {
                Ok(out) => s == Ok::<Seq<AccountView>, ProgramFailure>(views_of(out@)),
                Err(e) => s == Err::<Seq<AccountView>, ProgramFailure>(e),
            }
        }),
{
    if accounts.len() < 2 {
        return Err(ProgramFailure::NotEnoughAccounts);
    }
    match assert_market_owner(config, &accounts[1].owner) {
        Err(e) => {
            return Err(ProgramFailure::Custom(e));
        },
        Ok(()) => {},
    }
    if !accounts[0].is_signer {
        return Err(ProgramFailure::Custom(HitMyBetError::InvalidSigner));
    }
    let market = match read_market(&accounts[1].data) {
        Err(e) => {
            return Err(e);
        },
        Ok(m) => m,
    };
    let reassigned = PredictionMarket { resolver: accounts[0].key, ..market };
    let mut out: Vec<AccountRecord> = Vec::new();
    out.push(clone_account(&accounts[0]));
    out.push(
        AccountRecord {
            key: accounts[1].key,
            is_signer: accounts[1].is_signer,
            lamports: accounts[1].lamports,
            owner: accounts[1].owner,
            data: pack_market(&reassigned),
        },
    );
    extend_cloned_from(&mut out, accounts, 2);
    proof {
        let s = spec_set_market_resolver_admin(config@, views_of(accounts@));
        assert(reassigned@ =~= (MarketView { resolver: accounts@[0].key@, ..market@ }));
        assert(views_of(out@) =~~= s.unwrap());
    }
    Ok(out)
}

/// The prediction account as a claim leaves it: reclaimed.  Its size is
/// zero, its ownership is back with the generic allocator, and its
/// whole balance has gone to the claimer; its bytes no longer decode as
/// a prediction record, which is what makes a second claim fail.
pub open spec fn spec_reclaimed_account(pred_acc: AccountView) -> AccountView {
    AccountView {
        lamports: 0,
        owner: spec_system_program_id(),
        data: Seq::<u8>::empty(),
        ..pred_acc
    }
}

/// What claiming must decide and produce: the market record is owned by
/// this program; the claimer co-signed; the supplied prediction account
/// sits at the derived address for this (market, claimer) pair; the
/// market is resolved.  The payout is computed from the frozen market
/// totals and the claimer's own counts; the prediction record is
/// reclaimed and its reserve returned to the claimer; any winnings move
/// from the market's held balance to the claimer.  The market's record
/// bytes — counts, pools, resolution — are never touched.
pub open spec fn spec_claim_market(
    cfg: ConfigView,
    program_id: Seq<u8>,
    accounts: Seq<AccountView>,
) -> Result<Seq<AccountView>, ProgramFailure> {
    if accounts.len() < 3 {
        Err(ProgramFailure::NotEnoughAccounts)
    } else {
        let claimer = accounts[0];
        let market_acc = accounts[1];
        let pred_acc = accounts[2];
        if market_acc.owner != cfg.program_id {
            Err(ProgramFailure::Custom(HitMyBetError::InvalidMarketOwner))
        } else if !claimer.is_signer {
            Err(ProgramFailure::Custom(HitMyBetError::InvalidSigner))
        } else {
            match spec_user_prediction_address(program_id, market_acc.key, claimer.key) {
                None => Err(ProgramFailure::Custom(HitMyBetError::InvalidProgramDerivedAddress)),
                Some((pda, bump)) => {
                    if pred_acc.key != pda {
                        Err(ProgramFailure::Custom(HitMyBetError::InvalidProgramDerivedAddress))
                    } else {
                        match spec_read_market(market_acc.data) {
                            Err(e) => Err(e),
                            Ok(m) => {
                                if m.resolution == MarketResolution::Unresolved {
                                    Err(ProgramFailure::Custom(HitMyBetError::MarketIsNotResolved))
                                } else {
                                    match spec_read_prediction(pred_acc.data) {
                                        Err(e) => Err(e),
                                        Ok(p) => {
                                            let payout = crate::payout::spec_payout(
                                                m,
                                                p,
                                                cfg.vote_price,
                                            );
                                            if crate::payout::spec_votes_to_claim(m, p) == 0 {
                                                Ok(
                                                    accounts.update(
                                                        0,
                                                        AccountView {
                                                            lamports: (claimer.lamports
                                                                + pred_acc.lamports) as u64,
                                                            ..claimer
                                                        },
                                                    ).update(2, spec_reclaimed_account(pred_acc)),
                                                )
                                            } else {
                                                Ok(
                                                    accounts.update(
                                                        0,
                                                        AccountView {
                                                            lamports: (claimer.lamports
                                                                + pred_acc.lamports + payout)
                                                                as u64,
                                                            ..claimer
                                                        },
                                                    ).update(
                                                        1,
                                                        AccountView {
                                                            lamports: (market_acc.lamports
                                                                - payout) as u64,
                                                            ..market_acc
                                                        },
                                                    ).update(2, spec_reclaimed_account(pred_acc)),
                                                )
                                            }
                                        },
                                    }
                                }
                            },
                        }
                    }
                },
            }
        }
    }
}

/// The machine-width bounds claiming's arithmetic needs, and the
/// divisor's positivity where the resolution pays a winning side.
pub open spec fn spec_claim_fits(cfg: ConfigView, accounts: Seq<AccountView>) -> bool {
    accounts.len() >= 3 ==> {
        let claimer = accounts[0];
        let market_acc = accounts[1];
        let pred_acc = accounts[2];
        claimer.lamports + pred_acc.lamports <= u64::MAX && (match spec_read_market(
            market_acc.data,
        ) {
            Ok(m) => (m.resolution == MarketResolution::Yes ==> m.num_yes > 0) && (m.resolution
                == MarketResolution::No ==> m.num_no > 0) && (match spec_read_prediction(
                pred_acc.data,
            ) {
                Ok(p) => p.num_votes_yes + p.num_votes_no <= u64::MAX
                    && crate::payout::spec_payout(m, p, cfg.vote_price) <= u64::MAX
                    && claimer.lamports + pred_acc.lamports + crate::payout::spec_payout(
                    m,
                    p,
                    cfg.vote_price,
                ) <= u64::MAX && market_acc.lamports >= crate::payout::spec_payout(
                    m,
                    p,
                    cfg.vote_price,
                ),
                Err(_) => true,
            }),
            Err(_) => true,
        })
    }
}

/// Settles one voter's claim against a resolved market and reclaims
/// their prediction record.
pub fn process_claim_market(
    config: &ProgramConfig,
    program_id: &Address,
    accounts: &Vec<AccountRecord>,
) -> (r: Result<Vec<AccountRecord>, ProgramFailure>)
    requires
        spec_claim_fits(config@, views_of(accounts@)),
    ensures
        ({
            let s = spec_claim_market(config@, program_id@, views_of(accounts@));
            match r {
                Ok(out) => s == Ok::<Seq<AccountView>, ProgramFailure>(views_of(out@)),
                Err(e) => s == Err::<Seq<AccountView>, ProgramFailure>(e),
            }
        }),
{
    if accounts.len() < 3 {
        return Err(ProgramFailure::NotEnoughAccounts);
    }
    match assert_market_owner(config, &accounts[1].owner) {
        Err(e) => {
            return Err(ProgramFailure::Custom(e));
        },
        Ok(()) => {},
    }
    if !accounts[0].is_signer {
        return Err(ProgramFailure::Custom(HitMyBetError::InvalidSigner));
    }
    let (pda, _bump) = match find_user_prediction_address(
        &accounts[1].key,
        &accounts[0].key,
        program_id,
    ) {
        None => {
            return Err(ProgramFailure::Custom(HitMyBetError::InvalidProgramDerivedAddress));
        },
        Some(p) => p,
    };
    if !address_eq(&accounts[2].key, &pda) {
        return Err(ProgramFailure::Custom(HitMyBetError::InvalidProgramDerivedAddress));
    }
    let market = match read_market(&accounts[1].data) {
        Err(e) => {
            return Err(e);
        },
        Ok(m) => m,
    };
    if matches!(market.resolution, MarketResolution::Unresolved) {
        return Err(ProgramFailure::Custom(HitMyBetError::MarketIsNotResolved));
    }
    let prediction = match read_prediction(&accounts[2].data) {
        Err(e) => {
            return Err(e);
        },
        Ok(p) => p,
    };
    let votes_to_claim: u64 = match market.resolution {
        MarketResolution::Unresolved => 0,
        MarketResolution::Yes => prediction.num_votes_yes,
        MarketResolution::No => prediction.num_votes_no,
        MarketResolution::Tie => prediction.num_votes_no + prediction.num_votes_yes,
    };
    let reclaimed = AccountRecord {
        key: accounts[2].key,
        is_signer: accounts[2].is_signer,
        lamports: 0,
        owner: system_program_id(),
        data: Vec::new(),
    };
    let mut out: Vec<AccountRecord> = Vec::new();
    if votes_to_claim == 0 {
        out.push(
            AccountRecord {
                key: accounts[0].key,
                is_signer: accounts[0].is_signer,
                lamports: accounts[0].lamports + accounts[2].lamports,
                owner: accounts[0].owner,
                data: clone_bytes(&accounts[0].data),
            },
        );
        out.push(clone_account(&accounts[1]));
        out.push(reclaimed);
    } else {
        let lamports_to_claim = crate::payout::compute_payout(
            &market,
            &prediction,
            config.vote_price,
        );
        out.push(
            AccountRecord {
                key: accounts[0].key,
                is_signer: accounts[0].is_signer,
                lamports: accounts[0].lamports + accounts[2].lamports + lamports_to_claim,
                owner: accounts[0].owner,
                data: clone_bytes(&accounts[0].data),
            },
        );
        out.push(
            AccountRecord {
                key: accounts[1].key,
                is_signer: accounts[1].is_signer,
                lamports: accounts[1].lamports - lamports_to_claim,
                owner: accounts[1].owner,
                data: clone_bytes(&accounts[1].data),
            },
        );
        out.push(reclaimed);
    }
    extend_cloned_from(&mut out, accounts, 3);
    proof {
        let s = spec_claim_market(config@, program_id@, views_of(accounts@));
        assert(crate::payout::spec_votes_to_claim(market@, prediction) == votes_to_claim as int);
        assert(views_of(out@) =~~= s.unwrap());
    }
    Ok(out)
}

/// What dispatch must decide: decode the instruction bytes (any
/// malformation is fatal), gate every variant on the protocol version,
/// reject the placeholder vote and resolution values before any
/// business logic, and hand off to the operation.
pub open spec fn spec_process_instruction(
    cfg: ConfigView,
    env: HostParams,
    program_id: Seq<u8>,
    accounts: Seq<AccountView>,
    input: Seq<u8>,
) -> Result<Seq<AccountView>, ProgramFailure> {
    match spec_unpack_instruction(input) {
        None => Err(ProgramFailure::Custom(HitMyBetError::InstructionUnpackError)),
        Some(iv) => match iv {
            InstructionView::InitPredictionMarket { version, market_id, open_until } => {
                if version != PROGRAM_VERSION {
                    Err(ProgramFailure::Custom(HitMyBetError::VersionMismatch))
                } else {
                    spec_init_prediction_market(
                        cfg,
                        env,
                        program_id,
                        accounts,
                        market_id,
                        open_until,
                    )
                }
            },
            InstructionView::MakePrediction { version, vote, num_votes } => {
                if version != PROGRAM_VERSION {
                    Err(ProgramFailure::Custom(HitMyBetError::VersionMismatch))
                } else if vote == UserVote::Unspecified {
                    Err(ProgramFailure::Custom(HitMyBetError::InstructionUnpackError))
                } else {
                    spec_make_prediction(cfg, env, program_id, accounts, vote, num_votes)
                }
            },
            InstructionView::ResolveMarket { version, resolution } => {
                if version != PROGRAM_VERSION {
                    Err(ProgramFailure::Custom(HitMyBetError::VersionMismatch))
                } else if resolution == MarketResolution::Unresolved {
                    Err(ProgramFailure::Custom(HitMyBetError::InstructionUnpackError))
                } else {
                    spec_resolve_market(cfg, env, accounts, resolution)
                }
            },
            InstructionView::ClaimMarket { version } => {
                if version != PROGRAM_VERSION {
                    Err(ProgramFailure::Custom(HitMyBetError::VersionMismatch))
                } else {
                    spec_claim_market(cfg, program_id, accounts)
                }
            },
            InstructionView::SetMarketResolverAdmin { version } => {
                if version != PROGRAM_VERSION {
                    Err(ProgramFailure::Custom(HitMyBetError::VersionMismatch))
                } else {
                    spec_set_market_resolver_admin(cfg, accounts)
                }
            },
            InstructionView::ResolveMarketAdmin { version, resolution } => {
                if version != PROGRAM_VERSION {
                    Err(ProgramFailure::Custom(HitMyBetError::VersionMismatch))
                } else if resolution == MarketResolution::Unresolved {
                    Err(ProgramFailure::Custom(HitMyBetError::InstructionUnpackError))
                } else {
                    spec_resolve_market_admin(cfg, env, accounts, resolution)
                }
            },
        },
    }
}

/// The machine-width bounds the dispatched operation's arithmetic
/// needs.
pub open spec fn spec_instruction_fits(
    cfg: ConfigView,
    env: HostParams,
    accounts: Seq<AccountView>,
    input: Seq<u8>,
) -> bool {
    match spec_unpack_instruction(input) {
        Some(InstructionView::InitPredictionMarket { .. }) => spec_init_fits(cfg, env, accounts),
        Some(InstructionView::MakePrediction { num_votes, .. }) => spec_make_prediction_fits(
            cfg,
            env,
            accounts,
            num_votes,
        ),
        Some(InstructionView::ClaimMarket { .. }) => spec_claim_fits(cfg, accounts),
        _ => true,
    }
}

/// Decodes and dispatches one instruction against the referenced
/// account records.
pub fn process_instruction(
    config: &ProgramConfig,
    env: &HostParams,
    program_id: &Address,
    accounts: &Vec<AccountRecord>,
    input: &Vec<u8>,
) -> (r: Result<Vec<AccountRecord>, ProgramFailure>)
    requires
        spec_instruction_fits(config@, *env, views_of(accounts@), input@),
    ensures
        ({
            let s = spec_process_instruction(
                config@,
                *env,
                program_id@,
                views_of(accounts@),
                input@,
            );
            match r {
                Ok(out) => s == Ok::<Seq<AccountView>, ProgramFailure>(views_of(out@)),
                Err(e) => s == Err::<Seq<AccountView>, ProgramFailure>(e),
            }
        }),
{
    let instruction = match crate::instruction::HitMyBetInstruction::unpack(input) {
        Err(e) => {
            return Err(ProgramFailure::Custom(e));
        },
        Ok(ix) => ix,
    };
    match instruction {
        crate::instruction::HitMyBetInstruction::InitPredictionMarket {
            version,
            market_id,
            open_until,
        } => {
            if version != PROGRAM_VERSION {
                return Err(ProgramFailure::Custom(HitMyBetError::VersionMismatch));
            }
            process_init_prediction_market(
                config,
                env,
                program_id,
                accounts,
                &market_id,
                open_until,
            )
        },
        crate::instruction::HitMyBetInstruction::MakePrediction { version, vote, num_votes } => {
            if version != PROGRAM_VERSION {
                return Err(ProgramFailure::Custom(HitMyBetError::VersionMismatch));
            }
            if matches!(vote, UserVote::Unspecified) {
                return Err(ProgramFailure::Custom(HitMyBetError::InstructionUnpackError));
            }
            process_make_prediction(config, env, program_id, accounts, vote, num_votes)
        },
        crate::instruction::HitMyBetInstruction::ResolveMarket { version, resolution } => {
            if version != PROGRAM_VERSION {
                return Err(ProgramFailure::Custom(HitMyBetError::VersionMismatch));
            }
            if matches!(resolution, MarketResolution::Unresolved) {
                return Err(ProgramFailure::Custom(HitMyBetError::InstructionUnpackError));
            }
            process_resolve_market(config, env, accounts, resolution)
        },
        crate::instruction::HitMyBetInstruction::ClaimMarket { version } => {
            if version != PROGRAM_VERSION {
                return Err(ProgramFailure::Custom(HitMyBetError::VersionMismatch));
            }
            process_claim_market(config, program_id, accounts)
        },
        crate::instruction::HitMyBetInstruction::SetMarketResolverAdmin { version } => {
            if version != PROGRAM_VERSION {
                return Err(ProgramFailure::Custom(HitMyBetError::VersionMismatch));
            }
            process_set_market_resolver_admin(config, accounts)
        },
        crate::instruction::HitMyBetInstruction::ResolveMarketAdmin { version, resolution } => {
            if version != PROGRAM_VERSION {
                return Err(ProgramFailure::Custom(HitMyBetError::VersionMismatch));
            }
            if matches!(resolution, MarketResolution::Unresolved) {
                return Err(ProgramFailure::Custom(HitMyBetError::InstructionUnpackError));
            }
            process_resolve_market_admin(config, env, accounts, resolution)
        },
    }
}

/// Market creation is final: once a creation for `market_id` has
/// succeeded, any further creation attempt for the same `market_id`
/// that presents the record it left behind fails with the
/// duplicate-creation error — and a failed attempt produces no records
/// at all, so the first record stands unchanged.
pub proof fn lemma_create_market_twice_fails(
    cfg: ConfigView,
    env1: HostParams,
    env2: HostParams,
    program_id: Seq<u8>,
    accounts1: Seq<AccountView>,
    accounts2: Seq<AccountView>,
    market_id: Seq<u8>,
    open_until1: i64,
    open_until2: i64,
    out: Seq<AccountView>,
)
    requires
        spec_init_prediction_market(cfg, env1, program_id, accounts1, market_id, open_until1)
            == Ok::<Seq<AccountView>, ProgramFailure>(out),
        accounts2.len() >= 4,
        accounts2[0].is_signer,
        accounts2[2].is_signer,
        accounts2[3].key == spec_system_program_id(),
        accounts2[1] == out[1],
    ensures
        spec_init_prediction_market(cfg, env2, program_id, accounts2, market_id, open_until2)
            == Err::<Seq<AccountView>, ProgramFailure>(
            ProgramFailure::Custom(HitMyBetError::AlreadyInitialized),
        ),
{
}

/// A vote against a resolved market fails with the already-resolved
/// error, whatever the clock reads.
pub proof fn lemma_vote_after_resolution_fails(
    cfg: ConfigView,
    env: HostParams,
    program_id: Seq<u8>,
    accounts: Seq<AccountView>,
    vote: UserVote,
    num_votes: u16,
    m: MarketView,
)
    requires
        accounts.len() >= 4,
        accounts[0].is_signer,
        accounts[1].owner == cfg.program_id,
        accounts[3].key == spec_system_program_id(),
        (match spec_user_prediction_address(program_id, accounts[1].key, accounts[0].key) {
            Some(p) => accounts[2].key == p.0,
            None => false,
        }),
        spec_read_market(accounts[1].data) == Ok::<MarketView, ProgramFailure>(m),
        m.resolution != MarketResolution::Unresolved,
    ensures
        spec_make_prediction(cfg, env, program_id, accounts, vote, num_votes) == Err::<
            Seq<AccountView>,
            ProgramFailure,
        >(ProgramFailure::Custom(HitMyBetError::MarketIsResolved)),
{
}

/// A vote on an unresolved market whose open window has passed fails
/// with the closed-market error.
pub proof fn lemma_vote_after_close_fails(
    cfg: ConfigView,
    env: HostParams,
    program_id: Seq<u8>,
    accounts: Seq<AccountView>,
    vote: UserVote,
    num_votes: u16,
    m: MarketView,
)
    requires
        accounts.len() >= 4,
        accounts[0].is_signer,
        accounts[1].owner == cfg.program_id,
        accounts[3].key == spec_system_program_id(),
        (match spec_user_prediction_address(program_id, accounts[1].key, accounts[0].key) {
            Some(p) => accounts[2].key == p.0,
            None => false,
        }),
        spec_read_market(accounts[1].data) == Ok::<MarketView, ProgramFailure>(m),
        m.resolution == MarketResolution::Unresolved,
        env.now >= m.open_until,
    ensures
        spec_make_prediction(cfg, env, program_id, accounts, vote, num_votes) == Err::<
            Seq<AccountView>,
            ProgramFailure,
        >(ProgramFailure::Custom(HitMyBetError::MarketIsClosed)),
{
}

/// Resolution is final: once a resolution has succeeded, any further
/// resolution attempt by the same resolver against the record it left
/// behind fails with the already-resolved error, whatever outcome it
/// asks for.
pub proof fn lemma_resolve_market_twice_fails(
    cfg: ConfigView,
    env1: HostParams,
    env2: HostParams,
    accounts1: Seq<AccountView>,
    accounts2: Seq<AccountView>,
    resolution1: MarketResolution,
    resolution2: MarketResolution,
    out: Seq<AccountView>,
)
    requires
        spec_resolve_market(cfg, env1, accounts1, resolution1) == Ok::<
            Seq<AccountView>,
            ProgramFailure,
        >(out),
        resolution1 != MarketResolution::Unresolved,
        accounts2.len() >= 2,
        accounts2[0].is_signer,
        accounts2[0].key == accounts1[0].key,
        accounts2[1] == out[1],
    ensures
        spec_resolve_market(cfg, env2, accounts2, resolution2) == Err::<
            Seq<AccountView>,
            ProgramFailure,
        >(ProgramFailure::Custom(HitMyBetError::MarketIsResolved)),
{
    let m = spec_read_market(accounts1[1].data)->Ok_0;
    let settled = MarketView { resolution: resolution1, open_until: env1.now, ..m };
    crate::state::prediction_market::lemma_market_round_trip(settled);
}

/// Only the stored resolver may resolve on the plain path, and only
/// the fixed administrative identity on the administrative path: any
/// other signer fails with the unauthorized-resolver error.
pub proof fn lemma_resolve_unauthorized_fails(
    cfg: ConfigView,
    env: HostParams,
    accounts: Seq<AccountView>,
    resolution: MarketResolution,
    m: MarketView,
)
    requires
        accounts.len() >= 2,
        accounts[0].is_signer,
        accounts[1].owner == cfg.program_id,
        spec_read_market(accounts[1].data) == Ok::<MarketView, ProgramFailure>(m),
    ensures
        accounts[0].key != m.resolver ==> spec_resolve_market(cfg, env, accounts, resolution)
            == Err::<Seq<AccountView>, ProgramFailure>(
            ProgramFailure::Custom(HitMyBetError::InvalidResolver),
        ),
        accounts[0].key != cfg.admin_resolver ==> spec_resolve_market_admin(
            cfg,
            env,
            accounts,
            resolution,
        ) == Err::<Seq<AccountView>, ProgramFailure>(
            ProgramFailure::Custom(HitMyBetError::InvalidResolver),
        ),
{
}

/// A claim against an unresolved market fails with the not-yet-resolved
/// error.
pub proof fn lemma_claim_before_resolution_fails(
    cfg: ConfigView,
    program_id: Seq<u8>,
    accounts: Seq<AccountView>,
    m: MarketView,
)
    requires
        accounts.len() >= 3,
        accounts[1].owner == cfg.program_id,
        accounts[0].is_signer,
        (match spec_user_prediction_address(program_id, accounts[1].key, accounts[0].key) {
            Some(p) => accounts[2].key == p.0,
            None => false,
        }),
        spec_read_market(accounts[1].data) == Ok::<MarketView, ProgramFailure>(m),
        m.resolution == MarketResolution::Unresolved,
    ensures
        spec_claim_market(cfg, program_id, accounts) == Err::<Seq<AccountView>, ProgramFailure>(
            ProgramFailure::Custom(HitMyBetError::MarketIsNotResolved),
        ),
{
}

/// Voting preserves the accounting invariant: if each pool was its
/// side's vote count times the unit price before a successful vote, it
/// is again after, so the invariant holds of every reachable market
/// record.
pub proof fn lemma_vote_preserves_pool_invariant(
    cfg: ConfigView,
    env: HostParams,
    program_id: Seq<u8>,
    accounts: Seq<AccountView>,
    vote: UserVote,
    num_votes: u16,
    out: Seq<AccountView>,
)
    requires
        spec_make_prediction_fits(cfg, env, accounts, num_votes),
        spec_make_prediction(cfg, env, program_id, accounts, vote, num_votes) == Ok::<
            Seq<AccountView>,
            ProgramFailure,
        >(out),
        crate::payout::market_pools_consistent(
            spec_read_market(accounts[1].data)->Ok_0,
            cfg.vote_price,
        ),
    ensures
        spec_read_market(out[1].data) is Ok,
        crate::payout::market_pools_consistent(
            spec_read_market(out[1].data)->Ok_0,
            cfg.vote_price,
        ),
{
    let m = spec_read_market(accounts[1].data)->Ok_0;
    let bet = num_votes * cfg.vote_price;
    assert((m.num_yes + num_votes) * cfg.vote_price == m.num_yes * cfg.vote_price + num_votes
        * cfg.vote_price) by (nonlinear_arith);
    assert((m.num_no + num_votes) * cfg.vote_price == m.num_no * cfg.vote_price + num_votes
        * cfg.vote_price) by (nonlinear_arith);
    if vote == UserVote::Yes {
        let m2 = MarketView {
            balance_yes: (m.balance_yes + bet) as u64,
            num_yes: (m.num_yes + num_votes) as u64,
            ..m
        };
        crate::state::prediction_market::lemma_market_round_trip(m2);
    } else {
        let m2 = MarketView {
            balance_no: (m.balance_no + bet) as u64,
            num_no: (m.num_no + num_votes) as u64,
            ..m
        };
        crate::state::prediction_market::lemma_market_round_trip(m2);
    }
}

/// Resolution freezes the totals: the record a successful resolution
/// writes back carries the asked-for outcome and the clock's reading in
/// place of the open window, and exactly the counts and pools it held
/// before.
pub proof fn lemma_resolution_freezes_totals(
    cfg: ConfigView,
    env: HostParams,
    accounts: Seq<AccountView>,
    resolution: MarketResolution,
    out: Seq<AccountView>,
)
    requires
        spec_resolve_market(cfg, env, accounts, resolution) == Ok::<
            Seq<AccountView>,
            ProgramFailure,
        >(out),
    ensures
        ({
            let m = spec_read_market(accounts[1].data)->Ok_0;
            spec_read_market(out[1].data) == Ok::<MarketView, ProgramFailure>(
                MarketView { resolution, open_until: env.now, ..m },
            )
        }),
{
    let m = spec_read_market(accounts[1].data)->Ok_0;
    crate::state::prediction_market::lemma_market_round_trip(
        MarketView { resolution, open_until: env.now, ..m },
    );
}

/// As [`lemma_resolution_freezes_totals`], for the administrative path.
pub proof fn lemma_admin_resolution_freezes_totals(
    cfg: ConfigView,
    env: HostParams,
    accounts: Seq<AccountView>,
    resolution: MarketResolution,
    out: Seq<AccountView>,
)
    requires
        spec_resolve_market_admin(cfg, env, accounts, resolution) == Ok::<
            Seq<AccountView>,
            ProgramFailure,
        >(out),
    ensures
        ({
            let m = spec_read_market(accounts[1].data)->Ok_0;
            spec_read_market(out[1].data) == Ok::<MarketView, ProgramFailure>(
                MarketView { resolution, open_until: env.now, ..m },
            )
        }),
{
    let m = spec_read_market(accounts[1].data)->Ok_0;
    crate::state::prediction_market::lemma_market_round_trip(
        MarketView { resolution, open_until: env.now, ..m },
    );
}

/// A claim consumes the prediction record: once a claim for a (market,
/// voter) pair has succeeded, any further claim by the same voter
/// against the records it left behind fails, because the reclaimed
/// record no longer decodes as a prediction — and the market's own
/// counts, pools and resolution were not touched by the first claim.
pub proof fn lemma_claim_market_twice_fails(
    cfg: ConfigView,
    program_id: Seq<u8>,
    accounts1: Seq<AccountView>,
    accounts2: Seq<AccountView>,
    out: Seq<AccountView>,
)
    requires
        spec_claim_market(cfg, program_id, accounts1) == Ok::<Seq<AccountView>, ProgramFailure>(
            out,
        ),
        accounts2.len() >= 3,
        accounts2[0].is_signer,
        accounts2[0].key == accounts1[0].key,
        accounts2[1] == out[1],
        accounts2[2] == out[2],
    ensures
        spec_claim_market(cfg, program_id, accounts2) == Err::<Seq<AccountView>, ProgramFailure>(
            ProgramFailure::InvalidRecordData,
        ),
        out[1].data == accounts1[1].data,
{
}

} // verus!
