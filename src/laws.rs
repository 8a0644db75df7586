//! Properties of the ledger that span several calls or all states.
use vstd::prelude::*;
use crate::claims::{claim_stop, is_ready};
use crate::error::RevoraError;
use crate::guardrails::{lemma_without_contains, with, without};
use crate::math::{abs, fits_i128, share_value, RoundingMode};
use crate::state::{is_first_offering, Address, LedgerView, Offering, PeriodRecord};
use crate::transfer::first_offering_index;

verus! {

/// A share never exceeds the amount in magnitude and never has the opposite sign.
pub proof fn lemma_share_within_amount(amount: i128, bps: u32, mode: RoundingMode)
    requires
        bps <= 10000,
    ensures
        0 <= abs(share_value(amount, bps, mode)) <= abs(amount as int),
        share_value(amount, bps, mode) == 0 || (share_value(amount, bps, mode) > 0) == (amount
            > 0),
{
}

/// Blacklist and whitelist edits act on sets: after an add the principal is
/// listed, after a remove it is not, and every other principal keeps its
/// membership. Adding a member or removing a non-member changes nothing.
pub proof fn lemma_list_edits(s: Seq<Address>, who: Address, other: Address)
    ensures
        with(s, who).contains(who),
        !without(s, who).contains(who),
        other != who ==> (with(s, who).contains(other) == s.contains(other)),
        other != who ==> (without(s, who).contains(other) == s.contains(other)),
        s.contains(who) ==> with(s, who) == s,
{
    lemma_without_contains(s, who, who);
    lemma_without_contains(s, who, other);
    if !s.contains(who) {
        assert(s.push(who)[s.len() as int] == who);
        if s.push(who).contains(other) && other != who {
            let i = choose|i: int| 0 <= i < s.len() + 1 && s.push(who)[i] == other;
            assert(s[i] == other);
        }
        if s.contains(other) {
            let i = choose|i: int| 0 <= i < s.len() && s[i] == other;
            assert(s.push(who)[i] == other);
        }
    }
}

/// Exactly one offering of `s` has `token`.
pub open spec fn occurs_once(s: Seq<Offering>, token: Address) -> bool {
    exists|i: int|
        0 <= i < s.len() && s[i].token == token && forall|j: int|
            0 <= j < s.len() && #[trigger] s[j].token == token ==> j == i
}

/// No offering of `s` has `token`.
pub open spec fn absent(s: Seq<Offering>, token: Address) -> bool {
    forall|i: int| 0 <= i < s.len() ==> #[trigger] s[i].token != token
}

/// Write-once deposits: after a deposit of `amount` for `period_id`, a second
/// deposit for the same token and period fails with `PeriodAlreadyDeposited`
/// (and so changes nothing), and the one record of that period holds `amount`.
pub proof fn lemma_deposit_write_once(
    v: LedgerView,
    issuer: Address,
    token: Address,
    payment_token: Address,
    amount: i128,
    period_id: u64,
)
    requires
        v.deposit_error(issuer, token, payment_token, period_id) is None,
        !v.deposit_below_threshold(issuer, token, amount),
    ensures
        ({
            let w = v.deposited(issuer, token, payment_token, amount, period_id);
            &&& w.deposit_error(issuer, token, payment_token, period_id) == Some(
                RevoraError::PeriodAlreadyDeposited,
            )
            &&& forall|i: int|
                0 <= i < w.periods_of(token).len() && #[trigger] w.periods_of(token)[i].period_id
                    == period_id ==> w.periods_of(token)[i].revenue == amount
        }),
{
    let w = v.deposited(issuer, token, payment_token, amount, period_id);
    let ps = v.periods_of(token);
    let n = ps.len() as int;
    assert(w.periods_of(token) == ps.push(PeriodRecord { period_id, revenue: amount, deposit_time: v.now }));
    assert(w.periods_of(token)[n].period_id == period_id);
    assert(w.has_period(token, period_id));
    assert(w.offerings_of(issuer) == v.offerings_of(issuer));
    assert forall|i: int|
        0 <= i < w.periods_of(token).len() && #[trigger] w.periods_of(token)[i].period_id
            == period_id implies w.periods_of(token)[i].revenue == amount by {
        if i < n {
            assert(ps[i].period_id == period_id);
            assert(v.has_period(token, period_id));
        }
    }
}

proof fn lemma_claim_stop_in_order(
    ps: Seq<PeriodRecord>,
    i: int,
    end: int,
    acc: int,
    delay: u64,
    now: u64,
    bps: u32,
    mode: RoundingMode,
    j: int,
)
    requires
        0 <= i <= j < ps.len(),
        end <= ps.len(),
        !is_ready(ps[j], delay, now),
    ensures
        claim_stop(ps, i, end, acc, delay, now, bps, mode) <= j,
    decreases end - i,
{
    if i < end && i != j && is_ready(ps[i], delay, now) && fits_i128(
        acc + share_value(ps[i].revenue, bps, mode),
    ) {
        lemma_claim_stop_in_order(
            ps,
            i + 1,
            end,
            acc + share_value(ps[i].revenue, bps, mode),
            delay,
            now,
            bps,
            mode,
            j,
        );
    }
}

proof fn lemma_claim_stop_all_ready(
    ps: Seq<PeriodRecord>,
    i: int,
    end: int,
    acc: int,
    delay: u64,
    now: u64,
    bps: u32,
    mode: RoundingMode,
    k: int,
)
    requires
        0 <= i <= k < claim_stop(ps, i, end, acc, delay, now, bps, mode),
    ensures
        is_ready(ps[k], delay, now),
    decreases end - i,
{
    if i != k {
        lemma_claim_stop_all_ready(
            ps,
            i + 1,
            end,
            acc + share_value(ps[i].revenue, bps, mode),
            delay,
            now,
            bps,
            mode,
            k,
        );
    }
}

/// Delay-respecting order: a claim pays only periods whose delay has
/// elapsed, and never pays past a period still in its delay, even when later
/// periods are ready.
pub proof fn lemma_claim_respects_delay_order(
    v: LedgerView,
    token: Address,
    holder: Address,
    max_periods: u32,
    j: int,
)
    requires
        v.claim_error(token, holder, max_periods) is None,
    ensures
        forall|k: int|
            v.account(token, holder).next_period <= k < v.claim_stop_of(token, holder, max_periods)
                ==> #[trigger] is_ready(v.periods_of(token)[k], v.delay_of(token), v.now),
        v.account(token, holder).next_period <= j < v.periods_of(token).len() && !is_ready(
            v.periods_of(token)[j],
            v.delay_of(token),
            v.now,
        ) ==> v.claim_stop_of(token, holder, max_periods) <= j,
{
    let a = v.account(token, holder);
    let ps = v.periods_of(token);
    let end = v.claim_end(token, holder, max_periods);
    let mode = v.payout_mode(token);
    assert forall|k: int|
        a.next_period <= k < v.claim_stop_of(token, holder, max_periods) implies #[trigger] is_ready(
        ps[k],
        v.delay_of(token),
        v.now,
    ) by {
        lemma_claim_stop_all_ready(
            ps,
            a.next_period as int,
            end,
            0,
            v.delay_of(token),
            v.now,
            a.share_bps,
            mode,
            k,
        );
    }
    if a.next_period <= j < ps.len() && !is_ready(ps[j], v.delay_of(token), v.now) {
        lemma_claim_stop_in_order(
            ps,
            a.next_period as int,
            end,
            0,
            v.delay_of(token),
            v.now,
            a.share_bps,
            mode,
            j,
        );
    }
}

/// Claim monotonicity: a successful claim moves the cursor strictly forward
/// and never past the deposited periods; once the cursor has caught up with
/// them, a claim by a holder who is not blacklisted fails with
/// `NoPendingClaims`. So repeated claims without new deposits reach
/// `NoPendingClaims` after at most as many successes as there are periods.
pub proof fn lemma_claim_monotone(v: LedgerView, token: Address, holder: Address, max_periods: u32)
    ensures
        v.claim_error(token, holder, max_periods) is None ==> v.account(token, holder).next_period
            < v.claim_stop_of(token, holder, max_periods) <= v.periods_of(token).len(),
        !v.blacklist_of(token).contains(holder) && v.account(token, holder).next_period
            >= v.periods_of(token).len() ==> v.claim_error(token, holder, max_periods) == Some(
            RevoraError::NoPendingClaims,
        ),
{
    let a = v.account(token, holder);
    if v.claim_error(token, holder, max_periods) is None {
        crate::claims::lemma_claim_stop_bounds(
            v.periods_of(token),
            a.next_period as int,
            v.claim_end(token, holder, max_periods),
            0,
            v.delay_of(token),
            v.now,
            a.share_bps,
            v.payout_mode(token),
        );
    }
}

/// Blacklist precedence: a principal on both the blacklist and the whitelist
/// of a token is not eligible for distributions, and its claims fail with
/// `HolderBlacklisted`.
pub proof fn lemma_blacklist_precedence(v: LedgerView, token: Address, holder: Address, max_periods: u32)
    requires
        v.blacklist_of(token).contains(holder),
        v.whitelist_of(token).contains(holder),
    ensures
        !v.is_eligible(token, holder),
        v.claim_error(token, holder, max_periods) == Some(RevoraError::HolderBlacklisted),
{
}

/// Issuer-transfer atomicity: accepting a transfer makes the proposed issuer
/// the issuer of record, clears the proposal, and moves the offering so that
/// it is in neither list twice and in exactly one of them, the new issuer's,
/// carrying the new issuer.
pub proof fn lemma_transfer_moves_offering_once(v: LedgerView, token: Address)
    requires
        v.accept_error(token) is None,
        occurs_once(v.offerings_of(v.current_issuer(token).unwrap()), token),
        absent(v.offerings_of(v.pending_of(token).unwrap()), token),
    ensures
        ({
            let old_issuer = v.current_issuer(token).unwrap();
            let new_issuer = v.pending_of(token).unwrap();
            let w = v.transfer_accepted(token);
            &&& w.current_issuer(token) == Some(new_issuer)
            &&& w.pending_of(token) is None
            &&& absent(w.offerings_of(old_issuer), token)
            &&& occurs_once(w.offerings_of(new_issuer), token)
            &&& w.offerings_of(new_issuer).last().token == token
            &&& w.offerings_of(new_issuer).last().issuer == new_issuer
        }),
{
    let old_issuer = v.current_issuer(token).unwrap();
    let new_issuer = v.pending_of(token).unwrap();
    let s = v.offerings_of(old_issuer);
    let d = v.offerings_of(new_issuer);
    let w = v.transfer_accepted(token);
    let idx = first_offering_index(s, token);
    assert(is_first_offering(s, token, idx));
    let u = choose|i: int|
        0 <= i < s.len() && s[i].token == token && forall|j: int|
            0 <= j < s.len() && #[trigger] s[j].token == token ==> j == i;
    assert(u == idx);
    assert(old_issuer != new_issuer) by {
        if old_issuer == new_issuer {
            assert(d[idx].token != token);
        }
    }
    let rem = s.update(idx, s.last()).drop_last();
    assert(w.offerings_of(old_issuer) == rem);
    assert forall|i: int| 0 <= i < rem.len() implies #[trigger] rem[i].token != token by {
        if i == idx {
            assert(s[s.len() - 1].token != token);
        } else {
            assert(s[i].token != token);
        }
    }
    let o = s[idx];
    let nl = d.push(Offering { issuer: new_issuer, ..o });
    assert(w.offerings_of(new_issuer) == nl);
    assert(nl[d.len() as int].token == token);
    assert forall|j: int| 0 <= j < nl.len() && #[trigger] nl[j].token == token implies j == d.len() by {
        if j < d.len() {
            assert(d[j].token != token);
        }
    }
}

} // verus!
