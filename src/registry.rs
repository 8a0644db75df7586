//! Offering registry: registration, lookups, paging and the token -> issuer index.
use vstd::prelude::*;
use crate::error::RevoraError;
use crate::state::{
    find_offering, is_first_offering, lemma_map_values_insert, Address, Effect, Event,
    LedgerView, Offering, RevoraRevenueShare,
};

verus! {

broadcast use vstd::std_specs::hash::group_hash_axioms;

/// Largest page returned by `get_offerings_page`.
pub const MAX_PAGE_LIMIT: u32 = 20;

impl LedgerView {
    /// The offering registered by `issuer` for `token`, if any.
    pub open spec fn offering(self, issuer: Address, token: Address) -> Option<Offering> {
        find_offering(self.offerings_of(issuer), token)
    }

    pub open spec fn register_error(self, issuer: Address, revenue_share_bps: u32) -> Option<
        RevoraError,
    > {
        if self.live_error() is Some {
            self.live_error()
        } else if !self.testnet_mode && revenue_share_bps > 10000 {
            Some(RevoraError::InvalidRevenueShareBps)
        } else if self.offerings_of(issuer).len() >= u32::MAX {
            Some(RevoraError::LimitReached)
        } else {
            None
        }
    }

    /// The state after a successful registration.
    pub open spec fn registered(
        self,
        issuer: Address,
        token: Address,
        revenue_share_bps: u32,
        payout_asset: Address,
    ) -> LedgerView {
        let o = Offering { issuer, token, revenue_share_bps, payout_asset };
        let base = (LedgerView {
            offerings: self.offerings.insert(issuer, self.offerings_of(issuer).push(o)),
            issuer_of: self.issuer_of.insert(token, issuer),
            ..self
        }).emit(Effect::RequireAuth(issuer)).emit(
            Effect::Publish(Event::OfferingRegistered { issuer, token, revenue_share_bps, payout_asset }),
        );
        if self.event_versioning {
            base.emit(
                Effect::Publish(
                    Event::OfferingRegisteredV1 { issuer, token, revenue_share_bps, payout_asset },
                ),
            )
        } else {
            base
        }
    }

    /// Where the page of `issuer`'s offerings starting at `start` ends.
    pub open spec fn page_end(self, issuer: Address, start: u32, limit: u32) -> int {
        let count = self.offerings_of(issuer).len();
        let eff = if limit == 0 || limit > MAX_PAGE_LIMIT { MAX_PAGE_LIMIT } else { limit };
        if start + eff < count { start + eff } else { count as int }
    }
}

impl RevoraRevenueShare {
    /// Appends an offering to `issuer`'s list.
    pub(crate) fn push_offering(&mut self, issuer: Address, o: Offering)
        ensures
            final(self)@ == (LedgerView {
                offerings: old(self)@.offerings.insert(
                    issuer,
                    old(self)@.offerings_of(issuer).push(o),
                ),
                ..old(self)@
            }),
    {
        let mut list = match self.offerings.remove(&issuer) {
            Some(l) => l,
            None => Vec::new(),
        };
        list.push(o);
        proof {
            lemma_map_values_insert(self.offerings@, issuer, list, |v: Vec<Offering>| v@);
        }
        self.offerings.insert(issuer, list);
        proof {
            assert(self@.offerings =~= old(self)@.offerings.insert(
                issuer,
                old(self)@.offerings_of(issuer).push(o),
            ));
        }
    }

    /// Registers an offering of `token` by `issuer`; `issuer` must authorize.
    /// The token's issuer of record becomes `issuer`.
    pub fn register_offering(
        &mut self,
        issuer: Address,
        token: Address,
        revenue_share_bps: u32,
        payout_asset: Address,
    ) -> (r: Result<(), RevoraError>)
        requires
            old(self)@.wf(),
        ensures
            final(self)@.wf(),
            old(self)@.register_error(issuer, revenue_share_bps) matches Some(e) ==> r == Err::<
                (),
                RevoraError,
            >(e) && final(self)@ == old(self)@,
            old(self)@.register_error(issuer, revenue_share_bps) is None ==> r is Ok
                && final(self)@ == old(self)@.registered(
                issuer,
                token,
                revenue_share_bps,
                payout_asset,
            ),
    {
        match self.check_live() {
            Err(e) => return Err(e),
            Ok(()) => {},
        }
        if !self.testnet_mode && revenue_share_bps > 10_000 {
            return Err(RevoraError::InvalidRevenueShareBps);
        }
        let count = self.offering_len(issuer);
        if count >= u32::MAX as usize {
            return Err(RevoraError::LimitReached);
        }
        let o = Offering { issuer, token, revenue_share_bps, payout_asset };
        self.push_offering(issuer, o);
        self.issuer_of.insert(token, issuer);
        self.emit(Effect::RequireAuth(issuer));
        self.emit(
            Effect::Publish(Event::OfferingRegistered { issuer, token, revenue_share_bps, payout_asset }),
        );
        if self.event_versioning {
            self.emit(
                Effect::Publish(
                    Event::OfferingRegisteredV1 { issuer, token, revenue_share_bps, payout_asset },
                ),
            );
        }
        Ok(())
    }

    pub(crate) fn offering_len(&self, issuer: Address) -> (r: usize)
        ensures
            r == self@.offerings_of(issuer).len(),
    {
        match self.offerings.get(&issuer) {
            Some(l) => l.len(),
            None => 0,
        }
    }

    /// Index of the first offering of `issuer` with `token`, if any.
    pub(crate) fn offering_index(&self, issuer: Address, token: Address) -> (r: Option<usize>)
        ensures
            r matches Some(i) ==> is_first_offering(self@.offerings_of(issuer), token, i as int),
            r is None ==> forall|j: int|
                0 <= j < self@.offerings_of(issuer).len() ==> self@.offerings_of(issuer)[j].token
                    != token,
    {
        match self.offerings.get(&issuer) {
            None => None,
            Some(list) => {
                let mut i: usize = 0;
                while i < list.len()
                    invariant
                        list@ == self@.offerings_of(issuer),
                        i <= list.len(),
                        forall|j: int| 0 <= j < i ==> list@[j].token != token,
                    decreases list.len() - i,
                {
                    if list[i].token == token {
                        return Some(i);
                    }
                    i += 1;
                }
                None
            },
        }
    }

    /// The offering of `token` registered by `issuer`, if any.
    pub fn get_offering(&self, issuer: Address, token: Address) -> (r: Option<Offering>)
        ensures
            r == self@.offering(issuer, token),
    {
        let ghost s = self@.offerings_of(issuer);
        match self.offering_index(issuer, token) {
            None => {
                proof {
                    assert(!exists|i: int| is_first_offering(s, token, i));
                }
                None
            },
            Some(i) => {
                proof {
                    let c = choose|k: int| is_first_offering(s, token, k);
                    assert(is_first_offering(s, token, c));
                    assert(c == i as int) by {
                        if c < i as int {
                            assert(s[c].token != token);
                        } else if c > i as int {
                            assert(s[i as int].token != token);
                        }
                    }
                }
                let list = self.offerings.get(&issuer).unwrap();
                Some(list[i])
            },
        }
    }

    /// Number of offerings currently listed under `issuer`.
    pub fn get_offering_count(&self, issuer: Address) -> (r: u32)
        requires
            self@.wf(),
        ensures
            r == self@.offerings_of(issuer).len(),
    {
        let n = self.offering_len(issuer);
        n as u32
    }

    /// A page of `issuer`'s offerings starting at `start`. `limit` is capped at
    /// `MAX_PAGE_LIMIT`, and 0 means the cap. The cursor of the next page is
    /// returned only when more offerings remain.
    pub fn get_offerings_page(&self, issuer: Address, start: u32, limit: u32) -> (r: (
        Vec<Offering>,
        Option<u32>,
    ))
        requires
            self@.wf(),
        ensures
            start >= self@.offerings_of(issuer).len() ==> r.0@ == Seq::<Offering>::empty()
                && r.1 is None,
            start < self@.offerings_of(issuer).len() ==> {
                let end = self@.page_end(issuer, start, limit);
                &&& r.0@ == self@.offerings_of(issuer).subrange(start as int, end)
                &&& r.1 == if end < self@.offerings_of(issuer).len() {
                    Some(end as u32)
                } else {
                    None::<u32>
                }
            },
    {
        let count = self.get_offering_count(issuer);
        let eff: u32 = if limit == 0 || limit > MAX_PAGE_LIMIT {
            MAX_PAGE_LIMIT
        } else {
            limit
        };
        if start >= count {
            return (Vec::new(), None);
        }
        let end: u32 = if (start as u64) + (eff as u64) < count as u64 {
            start + eff
        } else {
            count
        };
        let list = self.offerings.get(&issuer).unwrap();
        let mut out: Vec<Offering> = Vec::new();
        let mut i: u32 = start;
        while i < end
            invariant
                list@ == self@.offerings_of(issuer),
                start <= i <= end,
                end <= list.len(),
                out@ == list@.subrange(start as int, i as int),
            decreases end - i,
        {
            out.push(list[i as usize]);
            i += 1;
            proof {
                assert(out@ =~= list@.subrange(start as int, i as int));
            }
        }
        let next = if end < count {
            Some(end)
        } else {
            None
        };
        (out, next)
    }

    /// Tokens of `issuer`'s first page of offerings.
    pub fn list_offerings(&self, issuer: Address) -> (r: Vec<Address>)
        requires
            self@.wf(),
        ensures
            r@ == self@.offerings_of(issuer).subrange(
                0,
                self@.page_end(issuer, 0, MAX_PAGE_LIMIT),
            ).map_values(|o: Offering| o.token),
    {
        let (page, _) = self.get_offerings_page(issuer, 0, MAX_PAGE_LIMIT);
        let mut tokens: Vec<Address> = Vec::new();
        let mut i: usize = 0;
        while i < page.len()
            invariant
                i <= page.len(),
                tokens@ == page@.subrange(0, i as int).map_values(|o: Offering| o.token),
            decreases page.len() - i,
        {
            tokens.push(page[i].token);
            i += 1;
            proof {
                assert(tokens@ =~= page@.subrange(0, i as int).map_values(|o: Offering| o.token));
            }
        }
        proof {
            assert(page@.subrange(0, page.len() as int) =~= page@);
            if self@.offerings_of(issuer).len() == 0 {
                assert(self@.offerings_of(issuer).subrange(0, 0) =~= Seq::<Offering>::empty());
            }
        }
        tokens
    }

    /// The issuer of record of `token`: the principal that every issuer-only
    /// operation re-derives authorization from.
    pub fn get_current_issuer(&self, token: Address) -> (r: Option<Address>)
        ensures
            r == self@.current_issuer(token),
    {
        match self.issuer_of.get(&token) {
            Some(i) => Some(*i),
            None => None,
        }
    }
}

} // verus!
