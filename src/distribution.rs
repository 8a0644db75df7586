//! Distribution previews and proportional payout calculations.
use vstd::prelude::*;
use crate::error::RevoraError;
use crate::math::{
    fits_i128, proportional_payout, proportional_payout_fits, proportional_payout_of, saturate,
    share_of_amount, share_value, trunc_div, RoundingMode, BPS_DENOMINATOR,
};
use crate::state::{Address, Effect, Event, RevoraRevenueShare, SimulateDistributionResult};

verus! {

/// Per-holder payouts of `amount` for the given (holder, bps) pairs; a pair
/// with bps above 10000 gets 0.
pub open spec fn simulated_payouts(shares: Seq<(Address, u32)>, amount: i128, mode: RoundingMode) -> Seq<
    (Address, i128),
> {
    shares.map_values(|p: (Address, u32)| (p.0, share_value(amount, p.1, mode) as i128))
}

/// Sum of the payouts, saturating at each step.
pub open spec fn saturating_total(payouts: Seq<(Address, i128)>) -> int
    decreases payouts.len(),
{
    if payouts.len() == 0 {
        0
    } else {
        saturate(saturating_total(payouts.drop_last()) + payouts.last().1)
    }
}

impl RevoraRevenueShare {
    /// Share of `amount` at `revenue_share_bps` under `mode`: 0 above 10000
    /// bps, and always within `[min(0, amount), max(0, amount)]`.
    pub fn compute_share(amount: i128, revenue_share_bps: u32, mode: RoundingMode) -> (r: i128)
        ensures
            r == share_value(amount, revenue_share_bps, mode),
    {
        share_of_amount(amount, revenue_share_bps, mode)
    }

    /// Previews how `amount` would be split among `holder_shares` under the
    /// offering's rounding mode, without changing anything.
    pub fn simulate_distribution(
        &self,
        issuer: Address,
        token: Address,
        amount: i128,
        holder_shares: Vec<(Address, u32)>,
    ) -> (r: SimulateDistributionResult)
        ensures
            r.payouts@ == simulated_payouts(
                holder_shares@,
                amount,
                self@.settings_of(issuer, token).rounding_mode,
            ),
            r.total_distributed == saturating_total(r.payouts@),
    {
        let mode = self.get_rounding_mode(issuer, token);
        let mut total: i128 = 0;
        let mut payouts: Vec<(Address, i128)> = Vec::new();
        let mut i: usize = 0;
        while i < holder_shares.len()
            invariant
                i <= holder_shares.len(),
                payouts@ == simulated_payouts(holder_shares@.subrange(0, i as int), amount, mode),
                total == saturating_total(payouts@),
            decreases holder_shares.len() - i,
        {
            let (holder, bps) = holder_shares[i];
            let pay = share_of_amount(amount, bps, mode);
            let ghost prev = payouts@;
            total = if pay > 0 && total > i128::MAX - pay {
                i128::MAX
            } else if pay < 0 && total < i128::MIN - pay {
                i128::MIN
            } else {
                total + pay
            };
            payouts.push((holder, pay));
            i += 1;
            proof {
                assert(payouts@ =~= simulated_payouts(holder_shares@.subrange(0, i as int), amount, mode));
                assert(payouts@.drop_last() =~= prev);
            }
        }
        proof {
            assert(holder_shares@.subrange(0, holder_shares.len() as int) =~= holder_shares@);
        }
        SimulateDistributionResult { total_distributed: total, payouts }
    }

    /// Payout of `holder` holding `holder_balance` of `total_supply` when
    /// `total_revenue` is distributed at the offering's revenue share:
    /// `(total_revenue * bps / 10000) * holder_balance / total_supply`, each
    /// division rounding toward zero, so never more than the exact share.
    /// `caller` must authorize. Fails on a zero total supply, a missing
    /// offering, or a blacklisted holder.
    pub fn calculate_distribution(
        &mut self,
        caller: Address,
        issuer: Address,
        token: Address,
        total_revenue: i128,
        total_supply: i128,
        holder_balance: i128,
        holder: Address,
    ) -> (r: Result<i128, RevoraError>)
        requires
            total_supply != 0 && old(self)@.offering(issuer, token) is Some ==> (total_revenue == 0
                || holder_balance == 0 || proportional_payout_fits(
                total_revenue,
                old(self)@.offering(issuer, token).unwrap().revenue_share_bps,
                total_supply,
                holder_balance,
            )),
        ensures
            total_supply == 0 ==> r == Err::<i128, RevoraError>(RevoraError::InvalidTotalSupply)
                && final(self)@ == old(self)@,
            total_supply != 0 && old(self)@.offering(issuer, token) is None ==> r == Err::<
                i128,
                RevoraError,
            >(RevoraError::OfferingNotFound) && final(self)@ == old(self)@,
            total_supply != 0 && old(self)@.offering(issuer, token) is Some && old(self)@.blacklist_of(token).contains(holder) ==> r == Err::<i128, RevoraError>(
                RevoraError::HolderBlacklisted,
            ) && final(self)@ == old(self)@,
            total_supply != 0 && old(self)@.offering(issuer, token) is Some && !old(self)@.blacklist_of(
                token,
            ).contains(holder) ==> {
                let o = old(self)@.offering(issuer, token).unwrap();
                let payout = if total_revenue == 0 || holder_balance == 0 {
                    0
                } else {
                    proportional_payout(
                        total_revenue,
                        o.revenue_share_bps,
                        total_supply,
                        holder_balance,
                    )
                };
                &&& r == Ok::<i128, RevoraError>(payout as i128)
                &&& final(self)@ == old(self)@.emit(Effect::RequireAuth(caller)).emit(
                    Effect::Publish(
                        Event::DistributionCalculated {
                            token,
                            holder,
                            total_revenue,
                            total_supply,
                            holder_balance,
                            revenue_share_bps: o.revenue_share_bps,
                            payout: payout as i128,
                        },
                    ),
                )
            },
    {
        if total_supply == 0 {
            return Err(RevoraError::InvalidTotalSupply);
        }
        let offering = match self.get_offering(issuer, token) {
            None => return Err(RevoraError::OfferingNotFound),
            Some(o) => o,
        };
        if self.is_blacklisted(token, holder) {
            return Err(RevoraError::HolderBlacklisted);
        }
        let payout: i128 = if total_revenue == 0 || holder_balance == 0 {
            0
        } else {
            proportional_payout_of(total_revenue, offering.revenue_share_bps, total_supply, holder_balance)
        };
        self.emit(Effect::RequireAuth(caller));
        self.emit(
            Effect::Publish(
                Event::DistributionCalculated {
                    token,
                    holder,
                    total_revenue,
                    total_supply,
                    holder_balance,
                    revenue_share_bps: offering.revenue_share_bps,
                    payout,
                },
            ),
        );
        Ok(payout)
    }

    /// The part of `total_revenue` shared with holders:
    /// `total_revenue * bps / 10000`, rounding toward zero.
    pub fn calculate_total_distributable(&self, issuer: Address, token: Address, total_revenue: i128) -> (r:
        Result<i128, RevoraError>)
        requires
            self@.offering(issuer, token) is Some ==> fits_i128(
                total_revenue * self@.offering(issuer, token).unwrap().revenue_share_bps,
            ),
        ensures
            self@.offering(issuer, token) is None ==> r == Err::<i128, RevoraError>(
                RevoraError::OfferingNotFound,
            ),
            self@.offering(issuer, token) is Some ==> r == Ok::<i128, RevoraError>(
                trunc_div(
                    total_revenue * self@.offering(issuer, token).unwrap().revenue_share_bps,
                    10000,
                ) as i128,
            ),
    {
        let offering = match self.get_offering(issuer, token) {
            None => return Err(RevoraError::OfferingNotFound),
            Some(o) => o,
        };
        if total_revenue == 0 {
            return Ok(0);
        }
        Ok(total_revenue * (offering.revenue_share_bps as i128) / BPS_DENOMINATOR)
    }
}

} // verus!
