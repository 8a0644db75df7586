//! The ledger's state, its abstract view, and the effects it hands to the host.
use vstd::prelude::*;
use std::collections::HashMap;
use crate::error::RevoraError;
use crate::math::RoundingMode;

verus! {

broadcast use vstd::std_specs::hash::group_hash_axioms;

/// A principal (account or contract) as a stable numeric handle.
pub type Address = u64;

/// A revenue-share offering: the relationship between an issuer and a token.
#[derive(Clone, Copy, Debug, PartialEq, Eq, Structural)]
pub struct Offering {
    /// The principal authorized to manage this offering.
    pub issuer: Address,
    /// The token representing this offering.
    pub token: Address,
    /// Cumulative revenue share for all holders in basis points (0-10000).
    pub revenue_share_bps: u32,
    /// The asset in which revenue is paid out.
    pub payout_asset: Address,
}

/// Single-holder concentration guardrail of an offering.
#[derive(Clone, Copy, Debug, PartialEq, Eq, Structural)]
pub struct ConcentrationLimitConfig {
    /// Maximum allowed single-holder share in basis points (0 = disabled).
    pub max_bps: u32,
    /// If true, `report_revenue` fails while the reported concentration exceeds `max_bps`.
    pub enforce: bool,
}

/// Running audit totals of an offering's revenue reports.
#[derive(Clone, Copy, Debug, PartialEq, Eq, Structural)]
pub struct AuditSummary {
    /// Cumulative revenue reported (saturating).
    pub total_revenue: i128,
    /// Number of revenue reports submitted (saturating).
    pub report_count: u64,
}

/// Result of `simulate_distribution`: per-holder payout and total.
#[derive(Clone, Debug)]
pub struct SimulateDistributionResult {
    /// Total amount that would be distributed (saturating sum).
    pub total_distributed: i128,
    /// Payout per holder, in input order.
    pub payouts: Vec<(Address, i128)>,
}

/// A deposited period: its id, its revenue and when it was deposited.
#[derive(Clone, Copy, Debug, PartialEq, Eq, Structural)]
pub struct PeriodRecord {
    pub period_id: u64,
    pub revenue: i128,
    pub deposit_time: u64,
}

/// A holder's entitlement on one offering token and its claim progress.
#[derive(Clone, Copy, Debug, PartialEq, Eq, Structural)]
pub struct HolderAccount {
    /// Share of each period's revenue, in basis points.
    pub share_bps: u32,
    /// Index of the next unclaimed period.
    pub next_period: u32,
}

/// An audit-only revenue report of one period.
#[derive(Clone, Copy, Debug, PartialEq, Eq, Structural)]
pub struct RevenueReport {
    pub amount: i128,
    pub timestamp: u64,
}

/// Settings kept per (issuer, offering token).
#[derive(Clone, Copy, Debug, PartialEq, Eq, Structural)]
pub struct IssuerSettings {
    pub concentration_limit: Option<ConcentrationLimitConfig>,
    pub current_concentration: Option<u32>,
    pub audit_summary: Option<AuditSummary>,
    pub rounding_mode: RoundingMode,
    pub min_revenue_threshold: i128,
}

/// Events published for off-chain consumers.
#[derive(Clone, Debug)]
pub enum Event {
    Initialized { admin: Address, safety: Option<Address> },
    Paused { caller: Address },
    Unpaused { caller: Address },
    AdminSet { admin: Address },
    Frozen { admin: Address },
    TestnetModeSet { admin: Address, enabled: bool },
    EventVersioningSet { admin: Address, enabled: bool },
    OfferingRegistered { issuer: Address, token: Address, revenue_share_bps: u32, payout_asset: Address },
    OfferingRegisteredV1 { issuer: Address, token: Address, revenue_share_bps: u32, payout_asset: Address },
    RevenueReportInitial { issuer: Address, token: Address, payout_asset: Address, amount: i128, period_id: u64 },
    RevenueReportOverride {
        issuer: Address,
        token: Address,
        payout_asset: Address,
        amount: i128,
        period_id: u64,
        previous_amount: i128,
    },
    RevenueReportRejected {
        issuer: Address,
        token: Address,
        payout_asset: Address,
        amount: i128,
        period_id: u64,
        existing_amount: i128,
    },
    RevenueReported { issuer: Address, token: Address, payout_asset: Address, amount: i128, period_id: u64 },
    RevenueReportedV1 { issuer: Address, token: Address, payout_asset: Address, amount: i128, period_id: u64 },
    BlacklistAdded { token: Address, caller: Address, investor: Address },
    BlacklistRemoved { token: Address, caller: Address, investor: Address },
    WhitelistAdded { token: Address, caller: Address, investor: Address },
    WhitelistRemoved { token: Address, caller: Address, investor: Address },
    ConcentrationLimitSet { issuer: Address, token: Address, max_bps: u32, enforce: bool },
    ConcentrationReported { issuer: Address, token: Address, concentration_bps: u32 },
    ConcentrationWarning { issuer: Address, token: Address, concentration_bps: u32, max_bps: u32 },
    RoundingModeSet { issuer: Address, token: Address, mode: RoundingMode },
    MinRevenueThresholdSet { issuer: Address, token: Address, threshold: i128 },
    ClaimDelaySet { issuer: Address, token: Address, delay_secs: u64 },
    RevenueDeposited { issuer: Address, token: Address, payment_token: Address, amount: i128, period_id: u64 },
    DepositBelowThreshold { issuer: Address, token: Address, amount: i128, period_id: u64, threshold: i128 },
    ShareSet { issuer: Address, token: Address, holder: Address, share_bps: u32 },
    Claimed { holder: Address, token: Address, total_payout: i128, periods: Vec<u64> },
    IssuerTransferProposed { token: Address, current_issuer: Address, new_issuer: Address },
    IssuerTransferAccepted { token: Address, old_issuer: Address, new_issuer: Address },
    IssuerTransferCancelled { token: Address, current_issuer: Address, proposed_issuer: Address },
    DistributionCalculated {
        token: Address,
        holder: Address,
        total_revenue: i128,
        total_supply: i128,
        holder_balance: i128,
        revenue_share_bps: u32,
        payout: i128,
    },
}

/// What a successful call asks of its host, in order. The host performs them
/// all or aborts the whole call.
#[derive(Clone, Debug)]
pub enum Effect {
    /// The call must be authorized by this principal.
    RequireAuth(Address),
    /// Move `amount` of `asset` from `from` into the ledger's custody.
    CollectDeposit { asset: Address, from: Address, amount: i128 },
    /// Pay `amount` of `asset` from the ledger's custody to `to`.
    PayOut { asset: Address, to: Address, amount: i128 },
    /// Publish an event.
    Publish(Event),
}

/// Key of a map indexed by two principals.
pub open spec fn pair_key(a: Address, b: Address) -> u128 {
    ((a as u128) << 64u128) | (b as u128)
}

pub fn pair(a: Address, b: Address) -> (r: u128)
    ensures
        r == pair_key(a, b),
{
    ((a as u128) << 64u128) | (b as u128)
}

pub open spec fn default_settings() -> IssuerSettings {
    IssuerSettings {
        concentration_limit: None,
        current_concentration: None,
        audit_summary: None,
        rounding_mode: RoundingMode::Truncation,
        min_revenue_threshold: 0,
    }
}

pub open spec fn default_account() -> HolderAccount {
    HolderAccount { share_bps: 0, next_period: 0 }
}

/// The whole ledger state as mathematical values.
pub struct LedgerView {
    pub admin: Option<Address>,
    pub safety: Option<Address>,
    pub paused: bool,
    pub frozen: bool,
    pub testnet_mode: bool,
    pub event_versioning: bool,
    /// Ledger time of the current call, in seconds.
    pub now: u64,
    /// issuer -> its offerings, densely packed.
    pub offerings: Map<Address, Seq<Offering>>,
    /// offering token -> issuer of record.
    pub issuer_of: Map<Address, Address>,
    /// offering token -> proposed new issuer.
    pub pending_issuer: Map<Address, Address>,
    /// offering token -> payment asset locked by its first deposit.
    pub payment_token: Map<Address, Address>,
    /// offering token -> claim delay in seconds.
    pub claim_delay: Map<Address, u64>,
    /// offering token -> deposited periods, in deposit order.
    pub periods: Map<Address, Seq<PeriodRecord>>,
    /// pair_key(token, holder) -> holder account.
    pub holders: Map<u128, HolderAccount>,
    /// token -> blacklisted principals.
    pub blacklist: Map<Address, Seq<Address>>,
    /// token -> whitelisted principals.
    pub whitelist: Map<Address, Seq<Address>>,
    /// pair_key(issuer, token) -> settings.
    pub settings: Map<u128, IssuerSettings>,
    /// pair_key(issuer, token) -> period id -> audit report.
    pub reports: Map<u128, Map<u64, RevenueReport>>,
    /// Effects not yet handed to the host.
    pub effects: Seq<Effect>,
}

impl LedgerView {
    pub open spec fn offerings_of(self, issuer: Address) -> Seq<Offering> {
        if self.offerings.contains_key(issuer) { self.offerings[issuer] } else { seq![] }
    }

    pub open spec fn current_issuer(self, token: Address) -> Option<Address> {
        if self.issuer_of.contains_key(token) { Some(self.issuer_of[token]) } else { None }
    }

    pub open spec fn pending_of(self, token: Address) -> Option<Address> {
        if self.pending_issuer.contains_key(token) { Some(self.pending_issuer[token]) } else { None }
    }

    pub open spec fn payment_token_of(self, token: Address) -> Option<Address> {
        if self.payment_token.contains_key(token) { Some(self.payment_token[token]) } else { None }
    }

    pub open spec fn delay_of(self, token: Address) -> u64 {
        if self.claim_delay.contains_key(token) { self.claim_delay[token] } else { 0 }
    }

    pub open spec fn periods_of(self, token: Address) -> Seq<PeriodRecord> {
        if self.periods.contains_key(token) { self.periods[token] } else { seq![] }
    }

    pub open spec fn account(self, token: Address, holder: Address) -> HolderAccount {
        let k = pair_key(token, holder);
        if self.holders.contains_key(k) { self.holders[k] } else { default_account() }
    }

    pub open spec fn blacklist_of(self, token: Address) -> Seq<Address> {
        if self.blacklist.contains_key(token) { self.blacklist[token] } else { seq![] }
    }

    pub open spec fn whitelist_of(self, token: Address) -> Seq<Address> {
        if self.whitelist.contains_key(token) { self.whitelist[token] } else { seq![] }
    }

    pub open spec fn settings_of(self, issuer: Address, token: Address) -> IssuerSettings {
        let k = pair_key(issuer, token);
        if self.settings.contains_key(k) { self.settings[k] } else { default_settings() }
    }

    pub open spec fn reports_of(self, issuer: Address, token: Address) -> Map<u64, RevenueReport> {
        let k = pair_key(issuer, token);
        if self.reports.contains_key(k) { self.reports[k] } else { Map::empty() }
    }

    /// The error every state-changing entry point fails with first, if any.
    pub open spec fn live_error(self) -> Option<RevoraError> {
        if self.frozen {
            Some(RevoraError::ContractFrozen)
        } else if self.paused {
            Some(RevoraError::ContractPaused)
        } else {
            None
        }
    }

    /// The error of an issuer-only call by `issuer` on `token`, if any: the
    /// lifecycle error first, then `not_found` unless `issuer` is the issuer
    /// of record of `token`.
    pub open spec fn issuer_error(self, issuer: Address, token: Address, not_found: RevoraError) -> Option<
        RevoraError,
    > {
        if self.live_error() is Some {
            self.live_error()
        } else if self.current_issuer(token) != Some(issuer) {
            Some(not_found)
        } else {
            None
        }
    }

    /// Blacklist membership always wins over the whitelist.
    pub open spec fn is_eligible(self, token: Address, who: Address) -> bool {
        !self.blacklist_of(token).contains(who) && (self.whitelist_of(token).len() == 0
            || self.whitelist_of(token).contains(who))
    }

    /// Structural limits that every operation preserves.
    pub open spec fn wf(self) -> bool {
        &&& forall|i: Address| #[trigger]
            self.offerings.contains_key(i) ==> self.offerings[i].len() <= u32::MAX
        &&& forall|t: Address| #[trigger]
            self.periods.contains_key(t) ==> self.periods[t].len() <= u32::MAX
        &&& forall|t: Address| #[trigger]
            self.periods.contains_key(t) && self.periods[t].len() > 0
                ==> self.payment_token.contains_key(t)
    }

    /// This view with one more effect queued.
    pub open spec fn emit(self, e: Effect) -> LedgerView {
        LedgerView { effects: self.effects.push(e), ..self }
    }
}

/// The first index of `s` whose offering has `token`.
pub open spec fn is_first_offering(s: Seq<Offering>, token: Address, i: int) -> bool {
    &&& 0 <= i < s.len()
    &&& s[i].token == token
    &&& forall|j: int| 0 <= j < i ==> s[j].token != token
}

/// The first offering of `s` with `token`, if any.
pub open spec fn find_offering(s: Seq<Offering>, token: Address) -> Option<Offering> {
    if exists|i: int| is_first_offering(s, token, i) {
        Some(s[choose|i: int| is_first_offering(s, token, i)])
    } else {
        None
    }
}

/// The revenue-share ledger: offerings, deposits, holder shares and claims.
///
/// Each field is one table of the ledger's storage; `LedgerView` describes
/// them. They are public so that a host can persist and restore the ledger;
/// the operations expect the structural limits of `LedgerView::wf`.
pub struct RevoraRevenueShare {
    pub admin: Option<Address>,
    pub safety: Option<Address>,
    pub paused: bool,
    pub frozen: bool,
    pub testnet_mode: bool,
    pub event_versioning: bool,
    pub now: u64,
    pub offerings: HashMap<Address, Vec<Offering>>,
    pub issuer_of: HashMap<Address, Address>,
    pub pending_issuer: HashMap<Address, Address>,
    pub payment_token: HashMap<Address, Address>,
    pub claim_delay: HashMap<Address, u64>,
    pub periods: HashMap<Address, Vec<PeriodRecord>>,
    pub holders: HashMap<u128, HolderAccount>,
    pub blacklist: HashMap<Address, Vec<Address>>,
    pub whitelist: HashMap<Address, Vec<Address>>,
    pub settings: HashMap<u128, IssuerSettings>,
    pub reports: HashMap<u128, HashMap<u64, RevenueReport>>,
    pub effects: Vec<Effect>,
}

impl View for RevoraRevenueShare {
    type V = LedgerView;

    open(crate) spec fn view(&self) -> LedgerView {
        LedgerView {
            admin: self.admin,
            safety: self.safety,
            paused: self.paused,
            frozen: self.frozen,
            testnet_mode: self.testnet_mode,
            event_versioning: self.event_versioning,
            now: self.now,
            offerings: self.offerings@.map_values(|v: Vec<Offering>| v@),
            issuer_of: self.issuer_of@,
            pending_issuer: self.pending_issuer@,
            payment_token: self.payment_token@,
            claim_delay: self.claim_delay@,
            periods: self.periods@.map_values(|v: Vec<PeriodRecord>| v@),
            holders: self.holders@,
            blacklist: self.blacklist@.map_values(|v: Vec<Address>| v@),
            whitelist: self.whitelist@.map_values(|v: Vec<Address>| v@),
            settings: self.settings@,
            reports: self.reports@.map_values(|m: HashMap<u64, RevenueReport>| m@),
            effects: self.effects@,
        }
    }
}

pub proof fn lemma_map_values_insert<K, V, W>(m: Map<K, V>, k: K, v: V, f: spec_fn(V) -> W)
    ensures
        m.insert(k, v).map_values(f) == m.map_values(f).insert(k, f(v)),
{
    assert(m.insert(k, v).map_values(f) =~= m.map_values(f).insert(k, f(v)));
}

impl RevoraRevenueShare {
    /// A ledger with nothing registered, not yet initialized.
    pub fn new() -> (r: RevoraRevenueShare)
        ensures
            r@.wf(),
            r@.admin is None,
            r@.safety is None,
            !r@.paused,
            !r@.frozen,
            !r@.testnet_mode,
            !r@.event_versioning,
            r@.now == 0,
            r@.offerings == Map::<Address, Seq<Offering>>::empty(),
            r@.issuer_of == Map::<Address, Address>::empty(),
            r@.pending_issuer == Map::<Address, Address>::empty(),
            r@.payment_token == Map::<Address, Address>::empty(),
            r@.claim_delay == Map::<Address, u64>::empty(),
            r@.periods == Map::<Address, Seq<PeriodRecord>>::empty(),
            r@.holders == Map::<u128, HolderAccount>::empty(),
            r@.blacklist == Map::<Address, Seq<Address>>::empty(),
            r@.whitelist == Map::<Address, Seq<Address>>::empty(),
            r@.settings == Map::<u128, IssuerSettings>::empty(),
            r@.reports == Map::<u128, Map<u64, RevenueReport>>::empty(),
            r@.effects == Seq::<Effect>::empty(),
    {
        let r = RevoraRevenueShare {
            admin: None,
            safety: None,
            paused: false,
            frozen: false,
            testnet_mode: false,
            event_versioning: false,
            now: 0,
            offerings: HashMap::new(),
            issuer_of: HashMap::new(),
            pending_issuer: HashMap::new(),
            payment_token: HashMap::new(),
            claim_delay: HashMap::new(),
            periods: HashMap::new(),
            holders: HashMap::new(),
            blacklist: HashMap::new(),
            whitelist: HashMap::new(),
            settings: HashMap::new(),
            reports: HashMap::new(),
            effects: Vec::new(),
        };
        proof {
            assert(r@.offerings =~= Map::<Address, Seq<Offering>>::empty());
            assert(r@.periods =~= Map::<Address, Seq<PeriodRecord>>::empty());
            assert(r@.blacklist =~= Map::<Address, Seq<Address>>::empty());
            assert(r@.whitelist =~= Map::<Address, Seq<Address>>::empty());
            assert(r@.reports =~= Map::<u128, Map<u64, RevenueReport>>::empty());
        }
        r
    }

    /// Sets the ledger time seen by the calls that follow.
    pub fn set_ledger_timestamp(&mut self, now: u64)
        ensures
            final(self)@ == (LedgerView { now, ..old(self)@ }),
    {
        self.now = now;
    }

    /// The ledger time seen by calls.
    pub fn ledger_timestamp(&self) -> (r: u64)
        ensures
            r == self@.now,
    {
        self.now
    }

    /// Hands the queued effects to the host, in order, and clears the queue.
    pub fn take_effects(&mut self) -> (r: Vec<Effect>)
        ensures
            r@ == old(self)@.effects,
            final(self)@ == (LedgerView { effects: Seq::empty(), ..old(self)@ }),
    {
        let mut out: Vec<Effect> = Vec::new();
        std::mem::swap(&mut out, &mut self.effects);
        out
    }

    pub(crate) fn emit(&mut self, e: Effect)
        ensures
            final(self)@ == old(self)@.emit(e),
    {
        self.effects.push(e);
    }

    /// Fails unless `issuer` may act as the issuer of `token` now.
    pub(crate) fn check_issuer(&self, issuer: Address, token: Address, not_found: RevoraError) -> (r:
        Result<(), RevoraError>)
        ensures
            r matches Err(e) ==> self@.issuer_error(issuer, token, not_found) == Some(e),
            r is Ok <==> self@.issuer_error(issuer, token, not_found) is None,
    {
        match self.check_live() {
            Err(e) => return Err(e),
            Ok(()) => {},
        }
        match self.issuer_of.get(&token) {
            Some(i) => if *i == issuer {
                Ok(())
            } else {
                Err(not_found)
            },
            None => Err(not_found),
        }
    }

    pub(crate) fn settings_for(&self, issuer: Address, token: Address) -> (r: IssuerSettings)
        ensures
            r == self@.settings_of(issuer, token),
    {
        match self.settings.get(&pair(issuer, token)) {
            Some(s) => *s,
            None => IssuerSettings {
                concentration_limit: None,
                current_concentration: None,
                audit_summary: None,
                rounding_mode: RoundingMode::Truncation,
                min_revenue_threshold: 0,
            },
        }
    }

    pub(crate) fn put_settings(&mut self, issuer: Address, token: Address, s: IssuerSettings)
        ensures
            final(self)@ == (LedgerView {
                settings: old(self)@.settings.insert(pair_key(issuer, token), s),
                ..old(self)@
            }),
    {
        self.settings.insert(pair(issuer, token), s);
    }

    /// Fails with the lifecycle error of a state-changing call, if any.
    pub(crate) fn check_live(&self) -> (r: Result<(), RevoraError>)
        ensures
            r matches Err(e) ==> self@.live_error() == Some(e),
            r is Ok <==> self@.live_error() is None,
    {
        if self.frozen {
            Err(RevoraError::ContractFrozen)
        } else if self.paused {
            Err(RevoraError::ContractPaused)
        } else {
            Ok(())
        }
    }
}

} // verus!
