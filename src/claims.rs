//! Holder shares and the claim engine: ordered, delay-respecting, batched
//! payout of a holder's share of each deposited period.
use vstd::prelude::*;
use crate::error::RevoraError;
use crate::math::{fits_i128, saturate, share_of_amount, share_value, RoundingMode};
use crate::state::{
    pair, pair_key, Address, Effect, Event, HolderAccount, LedgerView, PeriodRecord,
    RevoraRevenueShare,
};

verus! {

broadcast use vstd::std_specs::hash::group_hash_axioms;

/// Largest number of periods one claim processes.
pub const MAX_CLAIM_PERIODS: u32 = 50;

/// `a + b`, or `u64::MAX` when that overflows.
pub open spec fn sat_add_u64(a: u64, b: u64) -> u64 {
    if a + b > u64::MAX { u64::MAX } else { (a + b) as u64 }
}

/// A period can be claimed once its delay has elapsed.
pub open spec fn is_ready(rec: PeriodRecord, delay: u64, now: u64) -> bool {
    delay == 0 || now >= sat_add_u64(rec.deposit_time, delay)
}

/// Sum of the shares of periods `[from, to)` of `ps`.
pub open spec fn period_sum(ps: Seq<PeriodRecord>, from: int, to: int, bps: u32, mode: RoundingMode) -> int
    decreases to - from,
{
    if to <= from {
        0
    } else {
        period_sum(ps, from, to - 1, bps, mode) + share_value(ps[to - 1].revenue, bps, mode)
    }
}

/// Where a claim scanning `ps` from `i` (having claimed `acc` so far) stops:
/// at `end`, at the first period whose delay has not elapsed, or before a
/// period whose payout would overflow the total. Periods are claimed strictly
/// in order: nothing after the stop is paid.
pub open spec fn claim_stop(
    ps: Seq<PeriodRecord>,
    i: int,
    end: int,
    acc: int,
    delay: u64,
    now: u64,
    bps: u32,
    mode: RoundingMode,
) -> int
    decreases end - i,
{
    if i >= end || i < 0 || i >= ps.len() {
        i
    } else if !is_ready(ps[i], delay, now) || !fits_i128(acc + share_value(ps[i].revenue, bps, mode)) {
        i
    } else {
        claim_stop(ps, i + 1, end, acc + share_value(ps[i].revenue, bps, mode), delay, now, bps, mode)
    }
}

/// Sum, saturating at each step, of the shares of the ready periods in `[from, to)`.
pub open spec fn ready_sum(
    ps: Seq<PeriodRecord>,
    from: int,
    to: int,
    delay: u64,
    now: u64,
    bps: u32,
    mode: RoundingMode,
) -> int
    decreases to - from,
{
    if to <= from {
        0
    } else {
        let prev = ready_sum(ps, from, to - 1, delay, now, bps, mode);
        if is_ready(ps[to - 1], delay, now) {
            saturate(prev + share_value(ps[to - 1].revenue, bps, mode))
        } else {
            prev
        }
    }
}

impl LedgerView {
    /// Rounding mode that applies to `token`'s payouts: that of its issuer of record.
    pub open spec fn payout_mode(self, token: Address) -> RoundingMode {
        match self.current_issuer(token) {
            Some(i) => self.settings_of(i, token).rounding_mode,
            None => RoundingMode::Truncation,
        }
    }

    pub open spec fn set_share_error(self, issuer: Address, token: Address, share_bps: u32) -> Option<
        RevoraError,
    > {
        if self.issuer_error(issuer, token, RevoraError::OfferingNotFound) is Some {
            self.issuer_error(issuer, token, RevoraError::OfferingNotFound)
        } else if share_bps > 10000 {
            Some(RevoraError::InvalidShareBps)
        } else {
            None
        }
    }

    /// Last index (exclusive) that a claim with `max_periods` may reach.
    pub open spec fn claim_end(self, token: Address, holder: Address, max_periods: u32) -> int {
        let start = self.account(token, holder).next_period;
        let eff = if max_periods == 0 || max_periods > MAX_CLAIM_PERIODS {
            MAX_CLAIM_PERIODS
        } else {
            max_periods
        };
        let count = self.periods_of(token).len();
        if start + eff < count { start + eff } else { count as int }
    }

    /// Where `holder`'s claim on `token` stops.
    pub open spec fn claim_stop_of(self, token: Address, holder: Address, max_periods: u32) -> int {
        let a = self.account(token, holder);
        claim_stop(
            self.periods_of(token),
            a.next_period as int,
            self.claim_end(token, holder, max_periods),
            0,
            self.delay_of(token),
            self.now,
            a.share_bps,
            self.payout_mode(token),
        )
    }

    /// What `holder`'s claim on `token` pays.
    pub open spec fn claim_total(self, token: Address, holder: Address, max_periods: u32) -> int {
        let a = self.account(token, holder);
        period_sum(
            self.periods_of(token),
            a.next_period as int,
            self.claim_stop_of(token, holder, max_periods),
            a.share_bps,
            self.payout_mode(token),
        )
    }

    pub open spec fn claim_error(self, token: Address, holder: Address, max_periods: u32) -> Option<
        RevoraError,
    > {
        let a = self.account(token, holder);
        if self.blacklist_of(token).contains(holder) {
            Some(RevoraError::HolderBlacklisted)
        } else if a.share_bps == 0 {
            Some(RevoraError::NoPendingClaims)
        } else if a.next_period >= self.periods_of(token).len() {
            Some(RevoraError::NoPendingClaims)
        } else if self.claim_stop_of(token, holder, max_periods) == a.next_period {
            Some(RevoraError::ClaimDelayNotElapsed)
        } else {
            None
        }
    }

    /// Effects of a successful claim before its event: the holder's
    /// authorization, then the payout when it is positive.
    pub open spec fn claim_effects(self, token: Address, holder: Address, max_periods: u32) -> Seq<
        Effect,
    > {
        let total = self.claim_total(token, holder, max_periods);
        let pre = self.effects.push(Effect::RequireAuth(holder));
        if total > 0 {
            pre.push(
                Effect::PayOut {
                    asset: self.payment_token_of(token).unwrap(),
                    to: holder,
                    amount: total as i128,
                },
            )
        } else {
            pre
        }
    }
}

/// The claim event for `holder` on `token` paying `total` for `ids`.
pub open spec fn is_claim_event(e: Effect, holder: Address, token: Address, total: int, ids: Seq<u64>) -> bool {
    e matches Effect::Publish(Event::Claimed { holder: h, token: t, total_payout, periods }) && h
        == holder && t == token && total_payout == total && periods@ == ids
}

/// A claim's stop lies between where it starts and where its batch ends.
pub proof fn lemma_claim_stop_bounds(
    ps: Seq<PeriodRecord>,
    i: int,
    end: int,
    acc: int,
    delay: u64,
    now: u64,
    bps: u32,
    mode: RoundingMode,
)
    requires
        0 <= i <= end <= ps.len(),
    ensures
        i <= claim_stop(ps, i, end, acc, delay, now, bps, mode) <= end,
    decreases end - i,
{
    if i < end && is_ready(ps[i], delay, now) && fits_i128(acc + share_value(ps[i].revenue, bps, mode)) {
        lemma_claim_stop_bounds(ps, i + 1, end, acc + share_value(ps[i].revenue, bps, mode), delay, now, bps, mode);
    }
}

impl RevoraRevenueShare {
    pub(crate) fn account_of(&self, token: Address, holder: Address) -> (r: HolderAccount)
        ensures
            r == self@.account(token, holder),
    {
        match self.holders.get(&pair(token, holder)) {
            Some(a) => *a,
            None => HolderAccount { share_bps: 0, next_period: 0 },
        }
    }

    fn payout_mode_of(&self, token: Address) -> (r: RoundingMode)
        ensures
            r == self@.payout_mode(token),
    {
        match self.get_current_issuer(token) {
            Some(i) => self.settings_for(i, token).rounding_mode,
            None => RoundingMode::Truncation,
        }
    }

    /// Sets `holder`'s share of `token`'s revenue in basis points; current issuer only.
    pub fn set_holder_share(&mut self, issuer: Address, token: Address, holder: Address, share_bps: u32) -> (r:
        Result<(), RevoraError>)
        ensures
            old(self)@.set_share_error(issuer, token, share_bps) matches Some(e) ==> r == Err::<
                (),
                RevoraError,
            >(e) && final(self)@ == old(self)@,
            old(self)@.set_share_error(issuer, token, share_bps) is None ==> r is Ok && final(
                self)@ == (LedgerView {
                holders: old(self)@.holders.insert(
                    pair_key(token, holder),
                    HolderAccount { share_bps, ..old(self)@.account(token, holder) },
                ),
                ..old(self)@
            }).emit(Effect::RequireAuth(issuer)).emit(
                Effect::Publish(Event::ShareSet { issuer, token, holder, share_bps }),
            ),
    {
        match self.check_issuer(issuer, token, RevoraError::OfferingNotFound) {
            Err(e) => return Err(e),
            Ok(()) => {},
        }
        if share_bps > 10_000 {
            return Err(RevoraError::InvalidShareBps);
        }
        let a = self.account_of(token, holder);
        self.holders.insert(pair(token, holder), HolderAccount { share_bps, ..a });
        self.emit(Effect::RequireAuth(issuer));
        self.emit(Effect::Publish(Event::ShareSet { issuer, token, holder, share_bps }));
        Ok(())
    }

    /// `holder`'s share of `token`'s revenue in basis points; 0 unless set.
    pub fn get_holder_share(&self, token: Address, holder: Address) -> (r: u32)
        ensures
            r == self@.account(token, holder).share_bps,
    {
        self.account_of(token, holder).share_bps
    }

    /// Index of `holder`'s next unclaimed period of `token`.
    pub fn get_claim_cursor(&self, token: Address, holder: Address) -> (r: u32)
        ensures
            r == self@.account(token, holder).next_period,
    {
        self.account_of(token, holder).next_period
    }

    /// Claims `holder`'s share of the unclaimed periods of `token`, in order,
    /// at most `max_periods` of them (0 or more than `MAX_CLAIM_PERIODS` means
    /// `MAX_CLAIM_PERIODS`). The scan stops at the first period whose claim
    /// delay has not elapsed; the cursor advances exactly past the periods
    /// paid. Returns the total paid. Claims stay open while the ledger is
    /// frozen or paused, so holders can always collect what was deposited.
    pub fn claim(&mut self, holder: Address, token: Address, max_periods: u32) -> (r: Result<
        i128,
        RevoraError,
    >)
        requires
            old(self)@.wf(),
        ensures
            old(self)@.claim_error(token, holder, max_periods) matches Some(e) ==> r == Err::<
                i128,
                RevoraError,
            >(e) && final(self)@ == old(self)@,
            old(self)@.claim_error(token, holder, max_periods) is None ==> {
                let a = old(self)@.account(token, holder);
                let stop = old(self)@.claim_stop_of(token, holder, max_periods);
                let total = old(self)@.claim_total(token, holder, max_periods);
                let pre = old(self)@.claim_effects(token, holder, max_periods);
                &&& a.next_period < stop <= old(self)@.claim_end(token, holder, max_periods)
                &&& r == Ok::<i128, RevoraError>(total as i128)
                &&& final(self)@ == (LedgerView {
                    holders: old(self)@.holders.insert(
                        pair_key(token, holder),
                        HolderAccount { next_period: stop as u32, ..a },
                    ),
                    effects: final(self)@.effects,
                    ..old(self)@
                })
                &&& final(self)@.effects.len() == pre.len() + 1
                &&& final(self)@.effects.subrange(0, pre.len() as int) == pre
                &&& is_claim_event(
                    final(self)@.effects.last(),
                    holder,
                    token,
                    total,
                    old(self)@.periods_of(token).subrange(a.next_period as int, stop).map_values(
                        |p: PeriodRecord| p.period_id,
                    ),
                )
            },
    {
        if self.is_blacklisted(token, holder) {
            return Err(RevoraError::HolderBlacklisted);
        }
        let a = self.account_of(token, holder);
        if a.share_bps == 0 {
            return Err(RevoraError::NoPendingClaims);
        }
        let count = self.get_period_count(token);
        let start = a.next_period;
        if start >= count {
            return Err(RevoraError::NoPendingClaims);
        }
        let eff: u32 = if max_periods == 0 || max_periods > MAX_CLAIM_PERIODS {
            MAX_CLAIM_PERIODS
        } else {
            max_periods
        };
        let end: u32 = if (start as u64) + (eff as u64) < count as u64 {
            start + eff
        } else {
            count
        };
        let delay = self.get_claim_delay(token);
        let now = self.now;
        let mode = self.payout_mode_of(token);
        let bps = a.share_bps;
        let ps = self.periods.get(&token).unwrap();
        let ghost psv = ps@;
        let ghost target = claim_stop(psv, start as int, end as int, 0, delay, now, bps, mode);
        proof {
            lemma_claim_stop_bounds(psv, start as int, end as int, 0, delay, now, bps, mode);
        }
        let mut total: i128 = 0;
        let mut ids: Vec<u64> = Vec::new();
        let mut i: u32 = start;
        let mut done = false;
        while i < end && !done
            invariant
                ps@ == psv,
                psv == self@.periods_of(token),
                start <= i <= end,
                end <= psv.len(),
                total == period_sum(psv, start as int, i as int, bps, mode),
                ids@ == psv.subrange(start as int, i as int).map_values(|p: PeriodRecord| p.period_id),
                !done ==> claim_stop(psv, i as int, end as int, total as int, delay, now, bps, mode)
                    == target,
                done ==> i == target,
            decreases 2 * (end - i) + if done { 0int } else { 1int },
        {
            let rec = ps[i as usize];
            let ready = delay == 0 || now >= rec.deposit_time.saturating_add(delay);
            if !ready {
                done = true;
            } else {
                let pay = share_of_amount(rec.revenue, bps, mode);
                if (pay > 0 && total > i128::MAX - pay) || (pay < 0 && total < i128::MIN - pay) {
                    done = true;
                } else {
                    total = total + pay;
                    ids.push(rec.period_id);
                    i = i + 1;
                    proof {
                        assert(ids@ =~= psv.subrange(start as int, i as int).map_values(
                            |p: PeriodRecord| p.period_id,
                        ));
                    }
                }
            }
        }
        if i == start {
            return Err(RevoraError::ClaimDelayNotElapsed);
        }
        self.emit(Effect::RequireAuth(holder));
        if total > 0 {
            let asset = match self.payment_token.get(&token) {
                Some(p) => *p,
                None => token,
            };
            self.emit(Effect::PayOut { asset, to: holder, amount: total });
        }
        self.holders.insert(pair(token, holder), HolderAccount { next_period: i, ..a });
        let ghost pre = self@.effects;
        self.emit(
            Effect::Publish(Event::Claimed { holder, token, total_payout: total, periods: ids }),
        );
        proof {
            assert(self@.effects.subrange(0, pre.len() as int) =~= pre);
        }
        Ok(total)
    }

    /// Ids of `holder`'s unclaimed periods of `token`, in order.
    pub fn get_pending_periods(&self, token: Address, holder: Address) -> (r: Vec<u64>)
        requires
            self@.wf(),
        ensures
            ({
                let ps = self@.periods_of(token);
                let start = self@.account(token, holder).next_period as int;
                &&& start >= ps.len() ==> r@ == Seq::<u64>::empty()
                &&& start < ps.len() ==> r@ == ps.subrange(start, ps.len() as int).map_values(
                    |p: PeriodRecord| p.period_id,
                )
            }),
    {
        let count = self.get_period_count(token);
        let start = self.account_of(token, holder).next_period;
        let mut out: Vec<u64> = Vec::new();
        if start >= count {
            return out;
        }
        let ps = self.periods.get(&token).unwrap();
        let mut i: u32 = start;
        while i < count
            invariant
                ps@ == self@.periods_of(token),
                count == ps@.len(),
                start <= i <= count,
                out@ == ps@.subrange(start as int, i as int).map_values(|p: PeriodRecord| p.period_id),
            decreases count - i,
        {
            out.push(ps[i as usize].period_id);
            i = i + 1;
            proof {
                assert(out@ =~= ps@.subrange(start as int, i as int).map_values(
                    |p: PeriodRecord| p.period_id,
                ));
            }
        }
        out
    }

    /// Preview of what `holder` could collect from `token` now: the shares of
    /// all unclaimed periods whose delay has elapsed (saturating sum). Unlike
    /// `claim` it does not stop at the first period still in its delay.
    pub fn get_claimable(&self, token: Address, holder: Address) -> (r: i128)
        requires
            self@.wf(),
        ensures
            ({
                let a = self@.account(token, holder);
                let ps = self@.periods_of(token);
                &&& a.share_bps == 0 ==> r == 0
                &&& a.share_bps != 0 && a.next_period >= ps.len() ==> r == 0
                &&& a.share_bps != 0 && a.next_period < ps.len() ==> r == ready_sum(
                    ps,
                    a.next_period as int,
                    ps.len() as int,
                    self@.delay_of(token),
                    self@.now,
                    a.share_bps,
                    self@.payout_mode(token),
                )
            }),
    {
        let a = self.account_of(token, holder);
        if a.share_bps == 0 {
            return 0;
        }
        let count = self.get_period_count(token);
        let start = a.next_period;
        if start >= count {
            return 0;
        }
        let delay = self.get_claim_delay(token);
        let now = self.now;
        let mode = self.payout_mode_of(token);
        let ps = self.periods.get(&token).unwrap();
        let mut total: i128 = 0;
        let mut i: u32 = start;
        while i < count
            invariant
                ps@ == self@.periods_of(token),
                count == ps@.len(),
                start <= i <= count,
                total == ready_sum(ps@, start as int, i as int, delay, now, a.share_bps, mode),
            decreases count - i,
        {
            let rec = ps[i as usize];
            if delay == 0 || now >= rec.deposit_time.saturating_add(delay) {
                let pay = share_of_amount(rec.revenue, a.share_bps, mode);
                total = if pay > 0 && total > i128::MAX - pay {
                    i128::MAX
                } else if pay < 0 && total < i128::MIN - pay {
                    i128::MIN
                } else {
                    total + pay
                };
            }
            i = i + 1;
        }
        total
    }
}

} // verus!
