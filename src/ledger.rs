//! Revenue ledger: the audit-only report path and the custodial deposit path.
use vstd::prelude::*;
use std::collections::HashMap;
use crate::error::RevoraError;
use crate::math::saturate;
use crate::state::{
    lemma_map_values_insert, pair, pair_key, Address, AuditSummary, Effect, Event, IssuerSettings,
    LedgerView, PeriodRecord, RevenueReport, RevoraRevenueShare,
};

verus! {

broadcast use vstd::std_specs::hash::group_hash_axioms;

/// The audit summary after one more report of `amount`.
pub open spec fn audit_after(a: Option<AuditSummary>, amount: i128) -> AuditSummary {
    let prev = match a {
        Some(s) => s,
        None => AuditSummary { total_revenue: 0, report_count: 0 },
    };
    AuditSummary {
        total_revenue: saturate(prev.total_revenue + amount) as i128,
        report_count: if prev.report_count == u64::MAX { u64::MAX } else { (prev.report_count + 1) as u64 },
    }
}

impl LedgerView {
    /// Enforcement is on and the last reported concentration exceeds the limit.
    pub open spec fn concentration_blocks(self, issuer: Address, token: Address) -> bool {
        let s = self.settings_of(issuer, token);
        &&& !self.testnet_mode
        &&& s.concentration_limit matches Some(c)
        &&& c.enforce
        &&& c.max_bps > 0
        &&& (match s.current_concentration {
            Some(x) => x,
            None => 0,
        }) > c.max_bps
    }

    pub open spec fn report_error(self, issuer: Address, token: Address, payout_asset: Address) -> Option<
        RevoraError,
    > {
        if self.issuer_error(issuer, token, RevoraError::OfferingNotFound) is Some {
            self.issuer_error(issuer, token, RevoraError::OfferingNotFound)
        } else if self.offering(issuer, token) is None {
            Some(RevoraError::OfferingNotFound)
        } else if self.offering(issuer, token).unwrap().payout_asset != payout_asset {
            Some(RevoraError::PayoutAssetMismatch)
        } else if self.concentration_blocks(issuer, token) {
            Some(RevoraError::ConcentrationLimitExceeded)
        } else {
            None
        }
    }

    /// The state after a successful revenue report. A period reported before
    /// is only replaced when `override_existing` is set; otherwise the report
    /// is rejected by an event, and the call still succeeds. Either way the
    /// audit summary counts the report.
    pub open spec fn reported(
        self,
        issuer: Address,
        token: Address,
        payout_asset: Address,
        amount: i128,
        period_id: u64,
        override_existing: bool,
    ) -> LedgerView {
        let k = pair_key(issuer, token);
        let m = self.reports_of(issuer, token);
        let rec = RevenueReport { amount, timestamp: self.now };
        let new_m = if m.contains_key(period_id) && !override_existing {
            m
        } else {
            m.insert(period_id, rec)
        };
        let ev = if !m.contains_key(period_id) {
            Event::RevenueReportInitial { issuer, token, payout_asset, amount, period_id }
        } else if override_existing {
            Event::RevenueReportOverride {
                issuer,
                token,
                payout_asset,
                amount,
                period_id,
                previous_amount: m[period_id].amount,
            }
        } else {
            Event::RevenueReportRejected {
                issuer,
                token,
                payout_asset,
                amount,
                period_id,
                existing_amount: m[period_id].amount,
            }
        };
        let s = self.settings_of(issuer, token);
        let after = (LedgerView {
            reports: self.reports.insert(k, new_m),
            settings: self.settings.insert(
                k,
                IssuerSettings { audit_summary: Some(audit_after(s.audit_summary, amount)), ..s },
            ),
            ..self
        }).emit(Effect::RequireAuth(issuer)).emit(Effect::Publish(ev)).emit(
            Effect::Publish(Event::RevenueReported { issuer, token, payout_asset, amount, period_id }),
        );
        if self.event_versioning {
            after.emit(
                Effect::Publish(Event::RevenueReportedV1 { issuer, token, payout_asset, amount, period_id }),
            )
        } else {
            after
        }
    }

    /// A deposit for `period_id` of `token` is on record.
    pub open spec fn has_period(self, token: Address, period_id: u64) -> bool {
        exists|i: int|
            0 <= i < self.periods_of(token).len() && #[trigger] self.periods_of(token)[i].period_id
                == period_id
    }

    pub open spec fn deposit_error(
        self,
        issuer: Address,
        token: Address,
        payment_token: Address,
        period_id: u64,
    ) -> Option<RevoraError> {
        if self.issuer_error(issuer, token, RevoraError::OfferingNotFound) is Some {
            self.issuer_error(issuer, token, RevoraError::OfferingNotFound)
        } else if self.offering(issuer, token) is None {
            Some(RevoraError::OfferingNotFound)
        } else if self.offering(issuer, token).unwrap().payout_asset != payment_token {
            Some(RevoraError::PayoutAssetMismatch)
        } else if self.has_period(token, period_id) {
            Some(RevoraError::PeriodAlreadyDeposited)
        } else if self.payment_token_of(token) matches Some(p) && p != payment_token {
            Some(RevoraError::PaymentTokenMismatch)
        } else if self.periods_of(token).len() >= u32::MAX {
            Some(RevoraError::LimitReached)
        } else {
            None
        }
    }

    /// The deposit falls below the offering's minimum revenue threshold.
    pub open spec fn deposit_below_threshold(self, issuer: Address, token: Address, amount: i128) -> bool {
        let t = self.settings_of(issuer, token).min_revenue_threshold;
        t > 0 && amount < t
    }

    /// The state after a deposit that passed every check and the threshold.
    pub open spec fn deposited(
        self,
        issuer: Address,
        token: Address,
        payment_token: Address,
        amount: i128,
        period_id: u64,
    ) -> LedgerView {
        let rec = PeriodRecord { period_id, revenue: amount, deposit_time: self.now };
        (LedgerView {
            periods: self.periods.insert(token, self.periods_of(token).push(rec)),
            payment_token: if self.payment_token.contains_key(token) {
                self.payment_token
            } else {
                self.payment_token.insert(token, payment_token)
            },
            ..self
        }).emit(Effect::RequireAuth(issuer)).emit(
            Effect::CollectDeposit { asset: payment_token, from: issuer, amount },
        ).emit(
            Effect::Publish(Event::RevenueDeposited { issuer, token, payment_token, amount, period_id }),
        )
    }

    /// The state after a deposit skipped for falling below the threshold.
    pub open spec fn deposit_skipped(self, issuer: Address, token: Address, amount: i128, period_id: u64) -> LedgerView {
        self.emit(Effect::RequireAuth(issuer)).emit(
            Effect::Publish(
                Event::DepositBelowThreshold {
                    issuer,
                    token,
                    amount,
                    period_id,
                    threshold: self.settings_of(issuer, token).min_revenue_threshold,
                },
            ),
        )
    }
}

impl RevoraRevenueShare {
    /// Records an audit-only revenue report of a period; moves no funds.
    /// Current issuer only, and the payout asset must be the offering's.
    pub fn report_revenue(
        &mut self,
        issuer: Address,
        token: Address,
        payout_asset: Address,
        amount: i128,
        period_id: u64,
        override_existing: bool,
    ) -> (r: Result<(), RevoraError>)
        ensures
            old(self)@.report_error(issuer, token, payout_asset) matches Some(e) ==> r == Err::<
                (),
                RevoraError,
            >(e) && final(self)@ == old(self)@,
            old(self)@.report_error(issuer, token, payout_asset) is None ==> r is Ok && final(self)@ == old(self)@.reported(
                issuer,
                token,
                payout_asset,
                amount,
                period_id,
                override_existing,
            ),
    {
        match self.check_issuer(issuer, token, RevoraError::OfferingNotFound) {
            Err(e) => return Err(e),
            Ok(()) => {},
        }
        let offering = match self.get_offering(issuer, token) {
            None => return Err(RevoraError::OfferingNotFound),
            Some(o) => o,
        };
        if offering.payout_asset != payout_asset {
            return Err(RevoraError::PayoutAssetMismatch);
        }
        let s = self.settings_for(issuer, token);
        if !self.testnet_mode {
            match s.concentration_limit {
                Some(c) => {
                    let current: u32 = match s.current_concentration {
                        Some(x) => x,
                        None => 0,
                    };
                    if c.enforce && c.max_bps > 0 && current > c.max_bps {
                        return Err(RevoraError::ConcentrationLimitExceeded);
                    }
                },
                None => {},
            }
        }
        let k = pair(issuer, token);
        let ghost old_reports = self@.reports_of(issuer, token);
        let mut m: HashMap<u64, RevenueReport> = match self.reports.remove(&k) {
            Some(m) => m,
            None => HashMap::new(),
        };
        assert(m@ == old_reports);
        let rec = RevenueReport { amount, timestamp: self.now };
        let ev = match m.get(&period_id) {
            Some(existing) => {
                let existing_amount = existing.amount;
                if override_existing {
                    m.insert(period_id, rec);
                    Event::RevenueReportOverride {
                        issuer,
                        token,
                        payout_asset,
                        amount,
                        period_id,
                        previous_amount: existing_amount,
                    }
                } else {
                    Event::RevenueReportRejected {
                        issuer,
                        token,
                        payout_asset,
                        amount,
                        period_id,
                        existing_amount,
                    }
                }
            },
            None => {
                m.insert(period_id, rec);
                Event::RevenueReportInitial { issuer, token, payout_asset, amount, period_id }
            },
        };
        proof {
            lemma_map_values_insert(
                self.reports@,
                k,
                m,
                |m: HashMap<u64, RevenueReport>| m@,
            );
        }
        self.reports.insert(k, m);
        proof {
            assert(self@.reports =~= old(self)@.reports.insert(k, m@));
        }
        let prev = match s.audit_summary {
            Some(a) => a,
            None => AuditSummary { total_revenue: 0, report_count: 0 },
        };
        let total: i128 = if amount > 0 && prev.total_revenue > i128::MAX - amount {
            i128::MAX
        } else if amount < 0 && prev.total_revenue < i128::MIN - amount {
            i128::MIN
        } else {
            prev.total_revenue + amount
        };
        let count: u64 = prev.report_count.saturating_add(1);
        self.put_settings(
            issuer,
            token,
            IssuerSettings {
                audit_summary: Some(AuditSummary { total_revenue: total, report_count: count }),
                ..s
            },
        );
        self.emit(Effect::RequireAuth(issuer));
        self.emit(Effect::Publish(ev));
        self.emit(
            Effect::Publish(Event::RevenueReported { issuer, token, payout_asset, amount, period_id }),
        );
        if self.event_versioning {
            self.emit(
                Effect::Publish(Event::RevenueReportedV1 { issuer, token, payout_asset, amount, period_id }),
            );
        }
        Ok(())
    }

    /// Whether a deposit for `period_id` of `token` is on record.
    pub fn is_period_deposited(&self, token: Address, period_id: u64) -> (r: bool)
        ensures
            r == self@.has_period(token, period_id),
    {
        match self.periods.get(&token) {
            None => false,
            Some(list) => {
                let mut i: usize = 0;
                while i < list.len()
                    invariant
                        list@ == self@.periods_of(token),
                        i <= list.len(),
                        forall|j: int| 0 <= j < i ==> list@[j].period_id != period_id,
                    decreases list.len() - i,
                {
                    if list[i].period_id == period_id {
                        return true;
                    }
                    i += 1;
                }
                false
            },
        }
    }

    /// Revenue deposited for `period_id` of `token`, if any.
    pub fn get_period_revenue(&self, token: Address, period_id: u64) -> (r: Option<i128>)
        ensures
            r is Some <==> self@.has_period(token, period_id),
            r matches Some(x) ==> exists|i: int|
                0 <= i < self@.periods_of(token).len() && self@.periods_of(token)[i].period_id
                    == period_id && self@.periods_of(token)[i].revenue == x && forall|j: int|
                    0 <= j < i ==> #[trigger] self@.periods_of(token)[j].period_id != period_id,
    {
        match self.periods.get(&token) {
            None => None,
            Some(list) => {
                let mut i: usize = 0;
                while i < list.len()
                    invariant
                        list@ == self@.periods_of(token),
                        i <= list.len(),
                        forall|j: int| 0 <= j < i ==> list@[j].period_id != period_id,
                    decreases list.len() - i,
                {
                    if list[i].period_id == period_id {
                        return Some(list[i].revenue);
                    }
                    i += 1;
                }
                None
            },
        }
    }

    fn push_period(&mut self, token: Address, rec: PeriodRecord)
        ensures
            final(self)@ == (LedgerView {
                periods: old(self)@.periods.insert(token, old(self)@.periods_of(token).push(rec)),
                ..old(self)@
            }),
    {
        let mut list = match self.periods.remove(&token) {
            Some(l) => l,
            None => Vec::new(),
        };
        list.push(rec);
        proof {
            lemma_map_values_insert(self.periods@, token, list, |v: Vec<PeriodRecord>| v@);
        }
        self.periods.insert(token, list);
        proof {
            assert(self@.periods =~= old(self)@.periods.insert(
                token,
                old(self)@.periods_of(token).push(rec),
            ));
        }
    }

    /// Deposits `amount` of `payment_token` as the revenue of `period_id`.
    /// Current issuer only. Each period can be deposited once; the first
    /// deposit locks the payment token of the offering. The funds move from
    /// the issuer into the ledger's custody (`Effect::CollectDeposit`).
    pub fn deposit_revenue(
        &mut self,
        issuer: Address,
        token: Address,
        payment_token: Address,
        amount: i128,
        period_id: u64,
    ) -> (r: Result<(), RevoraError>)
        requires
            old(self)@.wf(),
        ensures
            final(self)@.wf(),
            old(self)@.deposit_error(issuer, token, payment_token, period_id) matches Some(e) ==> r
                == Err::<(), RevoraError>(e) && final(self)@ == old(self)@,
            old(self)@.deposit_error(issuer, token, payment_token, period_id) is None ==> r is Ok,
            old(self)@.deposit_error(issuer, token, payment_token, period_id) is None
                && old(self)@.deposit_below_threshold(issuer, token, amount) ==> final(self)@ == old(self)@.deposit_skipped(issuer, token, amount, period_id),
            old(self)@.deposit_error(issuer, token, payment_token, period_id) is None
                && !old(self)@.deposit_below_threshold(issuer, token, amount) ==> final(self)@ == old(self)@.deposited(issuer, token, payment_token, amount, period_id),
    {
        match self.check_issuer(issuer, token, RevoraError::OfferingNotFound) {
            Err(e) => return Err(e),
            Ok(()) => {},
        }
        let offering = match self.get_offering(issuer, token) {
            None => return Err(RevoraError::OfferingNotFound),
            Some(o) => o,
        };
        if offering.payout_asset != payment_token {
            return Err(RevoraError::PayoutAssetMismatch);
        }
        if self.is_period_deposited(token, period_id) {
            return Err(RevoraError::PeriodAlreadyDeposited);
        }
        let locked = match self.payment_token.get(&token) {
            Some(p) => Some(*p),
            None => None,
        };
        match locked {
            Some(p) => {
                if p != payment_token {
                    return Err(RevoraError::PaymentTokenMismatch);
                }
            },
            None => {},
        }
        let count: usize = match self.periods.get(&token) {
            Some(l) => l.len(),
            None => 0,
        };
        if count >= u32::MAX as usize {
            return Err(RevoraError::LimitReached);
        }
        let threshold = self.settings_for(issuer, token).min_revenue_threshold;
        if threshold > 0 && amount < threshold {
            self.emit(Effect::RequireAuth(issuer));
            self.emit(
                Effect::Publish(Event::DepositBelowThreshold { issuer, token, amount, period_id, threshold }),
            );
            return Ok(());
        }
        if locked.is_none() {
            self.payment_token.insert(token, payment_token);
        }
        let rec = PeriodRecord { period_id, revenue: amount, deposit_time: self.now };
        self.push_period(token, rec);
        self.emit(Effect::RequireAuth(issuer));
        self.emit(Effect::CollectDeposit { asset: payment_token, from: issuer, amount });
        self.emit(
            Effect::Publish(Event::RevenueDeposited { issuer, token, payment_token, amount, period_id }),
        );
        Ok(())
    }

    /// Number of periods deposited for `token`.
    pub fn get_period_count(&self, token: Address) -> (r: u32)
        requires
            self@.wf(),
        ensures
            r == self@.periods_of(token).len(),
    {
        match self.periods.get(&token) {
            Some(l) => l.len() as u32,
            None => 0,
        }
    }
}

} // verus!
