//! Guardrail configuration: blacklist and whitelist, concentration limit,
//! rounding mode, claim delay and minimum revenue threshold.
use vstd::prelude::*;
use crate::error::RevoraError;
use crate::math::RoundingMode;
use crate::state::{
    lemma_map_values_insert, pair_key, Address, AuditSummary, ConcentrationLimitConfig, Effect,
    Event, IssuerSettings, LedgerView, RevoraRevenueShare,
};

verus! {

broadcast use vstd::std_specs::hash::group_hash_axioms;

/// `s` with every occurrence of `x` taken out, order kept.
pub open spec fn without(s: Seq<Address>, x: Address) -> Seq<Address>
    decreases s.len(),
{
    if s.len() == 0 {
        s
    } else {
        let w = without(s.drop_last(), x);
        if s.last() == x {
            w
        } else {
            w.push(s.last())
        }
    }
}

/// `s` with `x` appended unless already present.
pub open spec fn with(s: Seq<Address>, x: Address) -> Seq<Address> {
    if s.contains(x) { s } else { s.push(x) }
}

pub proof fn lemma_without_contains(s: Seq<Address>, x: Address, y: Address)
    ensures
        without(s, x).contains(y) <==> (s.contains(y) && y != x),
    decreases s.len(),
{
    if s.len() > 0 {
        let d = s.drop_last();
        lemma_without_contains(d, x, y);
        let w = without(d, x);
        assert(s =~= d.push(s.last()));
        assert(d.push(s.last()).contains(y) <==> (d.contains(y) || y == s.last())) by {
            if d.push(s.last()).contains(y) {
                let i = choose|i: int| 0 <= i < d.len() + 1 && d.push(s.last())[i] == y;
                if i < d.len() {
                    assert(d[i] == y);
                }
            }
            if d.contains(y) {
                let i = choose|i: int| 0 <= i < d.len() && d[i] == y;
                assert(d.push(s.last())[i] == y);
            }
            assert(d.push(s.last())[d.len() as int] == s.last());
        }
        if s.last() != x {
            assert(w.push(s.last()).contains(y) <==> (w.contains(y) || y == s.last())) by {
                if w.push(s.last()).contains(y) {
                    let i = choose|i: int| 0 <= i < w.len() + 1 && w.push(s.last())[i] == y;
                    if i < w.len() {
                        assert(w[i] == y);
                    }
                }
                if w.contains(y) {
                    let i = choose|i: int| 0 <= i < w.len() && w[i] == y;
                    assert(w.push(s.last())[i] == y);
                }
                assert(w.push(s.last())[w.len() as int] == s.last());
            }
        }
    }
}

pub fn contains_address(v: &Vec<Address>, x: Address) -> (r: bool)
    ensures
        r == v@.contains(x),
{
    let mut i: usize = 0;
    while i < v.len()
        invariant
            i <= v.len(),
            forall|j: int| 0 <= j < i ==> v@[j] != x,
        decreases v.len() - i,
    {
        if v[i] == x {
            return true;
        }
        i += 1;
    }
    false
}

pub fn without_address(v: &Vec<Address>, x: Address) -> (r: Vec<Address>)
    ensures
        r@ == without(v@, x),
{
    let mut out: Vec<Address> = Vec::new();
    let mut i: usize = 0;
    while i < v.len()
        invariant
            i <= v.len(),
            out@ == without(v@.subrange(0, i as int), x),
        decreases v.len() - i,
    {
        proof {
            assert(v@.subrange(0, i as int + 1).drop_last() =~= v@.subrange(0, i as int));
        }
        if v[i] != x {
            out.push(v[i]);
        }
        i += 1;
    }
    proof {
        assert(v@.subrange(0, v.len() as int) =~= v@);
    }
    out
}

impl LedgerView {
    /// The state after a settings change of (issuer, token).
    pub open spec fn with_settings(self, issuer: Address, token: Address, s: IssuerSettings) -> LedgerView {
        LedgerView { settings: self.settings.insert(pair_key(issuer, token), s), ..self }
    }
}

impl RevoraRevenueShare {
    fn put_blacklist(&mut self, token: Address, list: Vec<Address>)
        ensures
            final(self)@ == (LedgerView {
                blacklist: old(self)@.blacklist.insert(token, list@),
                ..old(self)@
            }),
    {
        proof {
            lemma_map_values_insert(self.blacklist@, token, list, |v: Vec<Address>| v@);
        }
        self.blacklist.insert(token, list);
    }

    fn put_whitelist(&mut self, token: Address, list: Vec<Address>)
        ensures
            final(self)@ == (LedgerView {
                whitelist: old(self)@.whitelist.insert(token, list@),
                ..old(self)@
            }),
    {
        proof {
            lemma_map_values_insert(self.whitelist@, token, list, |v: Vec<Address>| v@);
        }
        self.whitelist.insert(token, list);
    }

    /// Adds `investor` to `token`'s blacklist; `caller` must authorize. Idempotent.
    pub fn blacklist_add(&mut self, caller: Address, token: Address, investor: Address) -> (r:
        Result<(), RevoraError>)
        ensures
            old(self)@.live_error() matches Some(e) ==> r == Err::<(), RevoraError>(e)
                && final(self)@ == old(self)@,
            old(self)@.live_error() is None ==> r is Ok && final(self)@ == (LedgerView {
                blacklist: old(self)@.blacklist.insert(
                    token,
                    with(old(self)@.blacklist_of(token), investor),
                ),
                ..old(self)@
            }).emit(Effect::RequireAuth(caller)).emit(
                Effect::Publish(Event::BlacklistAdded { token, caller, investor }),
            ),
    {
        match self.check_live() {
            Err(e) => return Err(e),
            Ok(()) => {},
        }
        let mut list = match self.blacklist.remove(&token) {
            Some(l) => l,
            None => Vec::new(),
        };
        if !contains_address(&list, investor) {
            list.push(investor);
        }
        self.put_blacklist(token, list);
        proof {
            assert(self@.blacklist =~= old(self)@.blacklist.insert(
                token,
                with(old(self)@.blacklist_of(token), investor),
            ));
        }
        self.emit(Effect::RequireAuth(caller));
        self.emit(Effect::Publish(Event::BlacklistAdded { token, caller, investor }));
        Ok(())
    }

    /// Removes `investor` from `token`'s blacklist; `caller` must authorize. Idempotent.
    pub fn blacklist_remove(&mut self, caller: Address, token: Address, investor: Address) -> (r:
        Result<(), RevoraError>)
        ensures
            old(self)@.live_error() matches Some(e) ==> r == Err::<(), RevoraError>(e)
                && final(self)@ == old(self)@,
            old(self)@.live_error() is None ==> r is Ok && final(self)@ == (LedgerView {
                blacklist: old(self)@.blacklist.insert(
                    token,
                    without(old(self)@.blacklist_of(token), investor),
                ),
                ..old(self)@
            }).emit(Effect::RequireAuth(caller)).emit(
                Effect::Publish(Event::BlacklistRemoved { token, caller, investor }),
            ),
    {
        match self.check_live() {
            Err(e) => return Err(e),
            Ok(()) => {},
        }
        let list = match self.blacklist.get(&token) {
            Some(l) => without_address(l, investor),
            None => Vec::new(),
        };
        self.put_blacklist(token, list);
        self.emit(Effect::RequireAuth(caller));
        self.emit(Effect::Publish(Event::BlacklistRemoved { token, caller, investor }));
        Ok(())
    }

    pub fn is_blacklisted(&self, token: Address, investor: Address) -> (r: bool)
        ensures
            r == self@.blacklist_of(token).contains(investor),
    {
        match self.blacklist.get(&token) {
            Some(l) => contains_address(l, investor),
            None => false,
        }
    }

    /// All blacklisted principals of `token`, in the order they were added.
    pub fn get_blacklist(&self, token: Address) -> (r: Vec<Address>)
        ensures
            r@ == self@.blacklist_of(token),
    {
        match self.blacklist.get(&token) {
            Some(l) => {
                let mut out: Vec<Address> = Vec::new();
                let mut i: usize = 0;
                while i < l.len()
                    invariant
                        i <= l.len(),
                        out@ == l@.subrange(0, i as int),
                    decreases l.len() - i,
                {
                    out.push(l[i]);
                    i += 1;
                    proof {
                        assert(out@ =~= l@.subrange(0, i as int));
                    }
                }
                proof {
                    assert(l@.subrange(0, l.len() as int) =~= l@);
                }
                out
            },
            None => Vec::new(),
        }
    }

    /// Adds `investor` to `token`'s whitelist; `caller` must authorize. Idempotent.
    pub fn whitelist_add(&mut self, caller: Address, token: Address, investor: Address) -> (r:
        Result<(), RevoraError>)
        ensures
            old(self)@.live_error() matches Some(e) ==> r == Err::<(), RevoraError>(e)
                && final(self)@ == old(self)@,
            old(self)@.live_error() is None ==> r is Ok && final(self)@ == (LedgerView {
                whitelist: old(self)@.whitelist.insert(
                    token,
                    with(old(self)@.whitelist_of(token), investor),
                ),
                ..old(self)@
            }).emit(Effect::RequireAuth(caller)).emit(
                Effect::Publish(Event::WhitelistAdded { token, caller, investor }),
            ),
    {
        match self.check_live() {
            Err(e) => return Err(e),
            Ok(()) => {},
        }
        let mut list = match self.whitelist.remove(&token) {
            Some(l) => l,
            None => Vec::new(),
        };
        if !contains_address(&list, investor) {
            list.push(investor);
        }
        self.put_whitelist(token, list);
        proof {
            assert(self@.whitelist =~= old(self)@.whitelist.insert(
                token,
                with(old(self)@.whitelist_of(token), investor),
            ));
        }
        self.emit(Effect::RequireAuth(caller));
        self.emit(Effect::Publish(Event::WhitelistAdded { token, caller, investor }));
        Ok(())
    }

    /// Removes `investor` from `token`'s whitelist; `caller` must authorize. Idempotent.
    pub fn whitelist_remove(&mut self, caller: Address, token: Address, investor: Address) -> (r:
        Result<(), RevoraError>)
        ensures
            old(self)@.live_error() matches Some(e) ==> r == Err::<(), RevoraError>(e)
                && final(self)@ == old(self)@,
            old(self)@.live_error() is None ==> r is Ok && final(self)@ == (LedgerView {
                whitelist: old(self)@.whitelist.insert(
                    token,
                    without(old(self)@.whitelist_of(token), investor),
                ),
                ..old(self)@
            }).emit(Effect::RequireAuth(caller)).emit(
                Effect::Publish(Event::WhitelistRemoved { token, caller, investor }),
            ),
    {
        match self.check_live() {
            Err(e) => return Err(e),
            Ok(()) => {},
        }
        let list = match self.whitelist.get(&token) {
            Some(l) => without_address(l, investor),
            None => Vec::new(),
        };
        self.put_whitelist(token, list);
        self.emit(Effect::RequireAuth(caller));
        self.emit(Effect::Publish(Event::WhitelistRemoved { token, caller, investor }));
        Ok(())
    }

    pub fn is_whitelisted(&self, token: Address, investor: Address) -> (r: bool)
        ensures
            r == self@.whitelist_of(token).contains(investor),
    {
        match self.whitelist.get(&token) {
            Some(l) => contains_address(l, investor),
            None => false,
        }
    }

    /// The whitelist is in force exactly when it is non-empty.
    pub fn is_whitelist_enabled(&self, token: Address) -> (r: bool)
        ensures
            r == (self@.whitelist_of(token).len() > 0),
    {
        match self.whitelist.get(&token) {
            Some(l) => l.len() > 0,
            None => false,
        }
    }

    /// Whether `investor` may receive distributions of `token`: never when
    /// blacklisted; otherwise when the whitelist is off or lists it.
    pub fn is_distribution_eligible(&self, token: Address, investor: Address) -> (r: bool)
        ensures
            r == self@.is_eligible(token, investor),
    {
        if self.is_blacklisted(token, investor) {
            return false;
        }
        !self.is_whitelist_enabled(token) || self.is_whitelisted(token, investor)
    }

    /// Sets the concentration guardrail of an offering; current issuer only.
    /// Fails with `LimitReached` when `issuer` is not the issuer of record.
    pub fn set_concentration_limit(
        &mut self,
        issuer: Address,
        token: Address,
        max_bps: u32,
        enforce: bool,
    ) -> (r: Result<(), RevoraError>)
        ensures
            old(self)@.issuer_error(issuer, token, RevoraError::LimitReached) matches Some(e) ==> r
                == Err::<(), RevoraError>(e) && final(self)@ == old(self)@,
            old(self)@.issuer_error(issuer, token, RevoraError::LimitReached) is None ==> r is Ok
                && final(self)@ == old(self)@.with_settings(
                issuer,
                token,
                IssuerSettings {
                    concentration_limit: Some(ConcentrationLimitConfig { max_bps, enforce }),
                    ..old(self)@.settings_of(issuer, token)
                },
            ).emit(Effect::RequireAuth(issuer)).emit(
                Effect::Publish(Event::ConcentrationLimitSet { issuer, token, max_bps, enforce }),
            ),
    {
        match self.check_issuer(issuer, token, RevoraError::LimitReached) {
            Err(e) => return Err(e),
            Ok(()) => {},
        }
        let s = self.settings_for(issuer, token);
        self.put_settings(
            issuer,
            token,
            IssuerSettings { concentration_limit: Some(ConcentrationLimitConfig { max_bps, enforce }), ..s },
        );
        self.emit(Effect::RequireAuth(issuer));
        self.emit(Effect::Publish(Event::ConcentrationLimitSet { issuer, token, max_bps, enforce }));
        Ok(())
    }

    /// Records the current top-holder concentration of an offering; current
    /// issuer only. Over the configured limit it only warns: the call succeeds.
    pub fn report_concentration(&mut self, issuer: Address, token: Address, concentration_bps: u32) -> (r:
        Result<(), RevoraError>)
        ensures
            old(self)@.issuer_error(issuer, token, RevoraError::OfferingNotFound) matches Some(e)
                ==> r == Err::<(), RevoraError>(e) && final(self)@ == old(self)@,
            old(self)@.issuer_error(issuer, token, RevoraError::OfferingNotFound) is None ==> {
                let s = old(self)@.settings_of(issuer, token);
                let base = old(self)@.with_settings(
                    issuer,
                    token,
                    IssuerSettings { current_concentration: Some(concentration_bps), ..s },
                ).emit(Effect::RequireAuth(issuer)).emit(
                    Effect::Publish(Event::ConcentrationReported { issuer, token, concentration_bps }),
                );
                &&& r is Ok
                &&& final(self)@ == match s.concentration_limit {
                    Some(c) => if c.max_bps > 0 && concentration_bps > c.max_bps {
                        base.emit(
                            Effect::Publish(
                                Event::ConcentrationWarning {
                                    issuer,
                                    token,
                                    concentration_bps,
                                    max_bps: c.max_bps,
                                },
                            ),
                        )
                    } else {
                        base
                    },
                    None => base,
                }
            },
    {
        match self.check_issuer(issuer, token, RevoraError::OfferingNotFound) {
            Err(e) => return Err(e),
            Ok(()) => {},
        }
        let s = self.settings_for(issuer, token);
        self.put_settings(issuer, token, IssuerSettings { current_concentration: Some(concentration_bps), ..s });
        self.emit(Effect::RequireAuth(issuer));
        self.emit(Effect::Publish(Event::ConcentrationReported { issuer, token, concentration_bps }));
        match s.concentration_limit {
            Some(c) => {
                if c.max_bps > 0 && concentration_bps > c.max_bps {
                    self.emit(
                        Effect::Publish(
                            Event::ConcentrationWarning { issuer, token, concentration_bps, max_bps: c.max_bps },
                        ),
                    );
                }
            },
            None => {},
        }
        Ok(())
    }

    pub fn get_concentration_limit(&self, issuer: Address, token: Address) -> (r: Option<
        ConcentrationLimitConfig,
    >)
        ensures
            r == self@.settings_of(issuer, token).concentration_limit,
    {
        self.settings_for(issuer, token).concentration_limit
    }

    pub fn get_current_concentration(&self, issuer: Address, token: Address) -> (r: Option<u32>)
        ensures
            r == self@.settings_of(issuer, token).current_concentration,
    {
        self.settings_for(issuer, token).current_concentration
    }

    /// Running audit totals of an offering's revenue reports, if any report was made.
    pub fn get_audit_summary(&self, issuer: Address, token: Address) -> (r: Option<AuditSummary>)
        ensures
            r == self@.settings_of(issuer, token).audit_summary,
    {
        self.settings_for(issuer, token).audit_summary
    }

    /// Sets the rounding mode of an offering; current issuer only. Fails with
    /// `LimitReached` when `issuer` is not the issuer of record.
    pub fn set_rounding_mode(&mut self, issuer: Address, token: Address, mode: RoundingMode) -> (r:
        Result<(), RevoraError>)
        ensures
            old(self)@.issuer_error(issuer, token, RevoraError::LimitReached) matches Some(e) ==> r
                == Err::<(), RevoraError>(e) && final(self)@ == old(self)@,
            old(self)@.issuer_error(issuer, token, RevoraError::LimitReached) is None ==> r is Ok
                && final(self)@ == old(self)@.with_settings(
                issuer,
                token,
                IssuerSettings { rounding_mode: mode, ..old(self)@.settings_of(issuer, token) },
            ).emit(Effect::RequireAuth(issuer)).emit(
                Effect::Publish(Event::RoundingModeSet { issuer, token, mode }),
            ),
    {
        match self.check_issuer(issuer, token, RevoraError::LimitReached) {
            Err(e) => return Err(e),
            Ok(()) => {},
        }
        let s = self.settings_for(issuer, token);
        self.put_settings(issuer, token, IssuerSettings { rounding_mode: mode, ..s });
        self.emit(Effect::RequireAuth(issuer));
        self.emit(Effect::Publish(Event::RoundingModeSet { issuer, token, mode }));
        Ok(())
    }

    /// Rounding mode of an offering; `Truncation` unless set.
    pub fn get_rounding_mode(&self, issuer: Address, token: Address) -> (r: RoundingMode)
        ensures
            r == self@.settings_of(issuer, token).rounding_mode,
    {
        self.settings_for(issuer, token).rounding_mode
    }

    /// Sets the floor below which deposits of an offering are skipped; current
    /// issuer only.
    pub fn set_min_revenue_threshold(&mut self, issuer: Address, token: Address, threshold: i128) -> (r:
        Result<(), RevoraError>)
        ensures
            old(self)@.issuer_error(issuer, token, RevoraError::OfferingNotFound) matches Some(e)
                ==> r == Err::<(), RevoraError>(e) && final(self)@ == old(self)@,
            old(self)@.issuer_error(issuer, token, RevoraError::OfferingNotFound) is None ==> r is Ok
                && final(self)@ == old(self)@.with_settings(
                issuer,
                token,
                IssuerSettings {
                    min_revenue_threshold: threshold,
                    ..old(self)@.settings_of(issuer, token)
                },
            ).emit(Effect::RequireAuth(issuer)).emit(
                Effect::Publish(Event::MinRevenueThresholdSet { issuer, token, threshold }),
            ),
    {
        match self.check_issuer(issuer, token, RevoraError::OfferingNotFound) {
            Err(e) => return Err(e),
            Ok(()) => {},
        }
        let s = self.settings_for(issuer, token);
        self.put_settings(issuer, token, IssuerSettings { min_revenue_threshold: threshold, ..s });
        self.emit(Effect::RequireAuth(issuer));
        self.emit(Effect::Publish(Event::MinRevenueThresholdSet { issuer, token, threshold }));
        Ok(())
    }

    /// Minimum revenue threshold of an offering; 0 unless set.
    pub fn get_min_revenue_threshold(&self, issuer: Address, token: Address) -> (r: i128)
        ensures
            r == self@.settings_of(issuer, token).min_revenue_threshold,
    {
        self.settings_for(issuer, token).min_revenue_threshold
    }

    /// Sets the delay between a deposit and its claimability; current issuer only.
    pub fn set_claim_delay(&mut self, issuer: Address, token: Address, delay_secs: u64) -> (r:
        Result<(), RevoraError>)
        ensures
            old(self)@.issuer_error(issuer, token, RevoraError::OfferingNotFound) matches Some(e)
                ==> r == Err::<(), RevoraError>(e) && final(self)@ == old(self)@,
            old(self)@.issuer_error(issuer, token, RevoraError::OfferingNotFound) is None ==> r is Ok
                && final(self)@ == (LedgerView {
                claim_delay: old(self)@.claim_delay.insert(token, delay_secs),
                ..old(self)@
            }).emit(Effect::RequireAuth(issuer)).emit(
                Effect::Publish(Event::ClaimDelaySet { issuer, token, delay_secs }),
            ),
    {
        match self.check_issuer(issuer, token, RevoraError::OfferingNotFound) {
            Err(e) => return Err(e),
            Ok(()) => {},
        }
        self.claim_delay.insert(token, delay_secs);
        self.emit(Effect::RequireAuth(issuer));
        self.emit(Effect::Publish(Event::ClaimDelaySet { issuer, token, delay_secs }));
        Ok(())
    }

    /// Claim delay of `token` in seconds; 0 (immediate) unless set.
    pub fn get_claim_delay(&self, token: Address) -> (r: u64)
        ensures
            r == self@.delay_of(token),
    {
        match self.claim_delay.get(&token) {
            Some(d) => *d,
            None => 0,
        }
    }
}

} // verus!
