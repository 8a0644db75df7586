//! Two-step issuer transfer: propose, then accept or cancel.
use vstd::prelude::*;
use crate::error::RevoraError;
use crate::state::{
    is_first_offering, lemma_map_values_insert, Address, Effect, Event, LedgerView, Offering,
    RevoraRevenueShare,
};

verus! {

broadcast use vstd::std_specs::hash::group_hash_axioms;

/// The first index of an offering with `token` in `s`.
pub open spec fn first_offering_index(s: Seq<Offering>, token: Address) -> int {
    choose|i: int| is_first_offering(s, token, i)
}

/// `s` without its element at `i`, the last element taking its place.
pub open spec fn swap_removed<A>(s: Seq<A>, i: int) -> Seq<A> {
    s.update(i, s.last()).drop_last()
}

impl LedgerView {
    pub open spec fn propose_error(self, token: Address) -> Option<RevoraError> {
        if self.live_error() is Some {
            self.live_error()
        } else if self.current_issuer(token) is None {
            Some(RevoraError::OfferingNotFound)
        } else if self.pending_of(token) is Some {
            Some(RevoraError::IssuerTransferPending)
        } else {
            None
        }
    }

    pub open spec fn accept_error(self, token: Address) -> Option<RevoraError> {
        if self.live_error() is Some {
            self.live_error()
        } else if self.pending_of(token) is None {
            Some(RevoraError::NoTransferPending)
        } else if self.current_issuer(token) is None {
            Some(RevoraError::OfferingNotFound)
        } else if !(exists|i: int|
            is_first_offering(self.offerings_of(self.current_issuer(token).unwrap()), token, i)) {
            Some(RevoraError::OfferingNotFound)
        } else if self.offerings_of(self.pending_of(token).unwrap()).len() >= u32::MAX {
            Some(RevoraError::LimitReached)
        } else {
            None
        }
    }

    /// The state after the pending transfer of `token` is accepted: the
    /// offering leaves the old issuer's list (the last entry fills its slot),
    /// joins the end of the new issuer's list with the new issuer, the issuer
    /// of record changes and the proposal is cleared.
    pub open spec fn transfer_accepted(self, token: Address) -> LedgerView {
        let old_issuer = self.current_issuer(token).unwrap();
        let new_issuer = self.pending_of(token).unwrap();
        let s = self.offerings_of(old_issuer);
        let o = s[first_offering_index(s, token)];
        let offs = self.offerings.insert(old_issuer, swap_removed(s, first_offering_index(s, token)));
        let dest = if offs.contains_key(new_issuer) { offs[new_issuer] } else { seq![] };
        (LedgerView {
            offerings: offs.insert(new_issuer, dest.push(Offering { issuer: new_issuer, ..o })),
            issuer_of: self.issuer_of.insert(token, new_issuer),
            pending_issuer: self.pending_issuer.remove(token),
            ..self
        }).emit(Effect::RequireAuth(new_issuer)).emit(
            Effect::Publish(Event::IssuerTransferAccepted { token, old_issuer, new_issuer }),
        )
    }

    pub open spec fn cancel_error(self, token: Address) -> Option<RevoraError> {
        if self.live_error() is Some {
            self.live_error()
        } else if self.current_issuer(token) is None {
            Some(RevoraError::OfferingNotFound)
        } else if self.pending_of(token) is None {
            Some(RevoraError::NoTransferPending)
        } else {
            None
        }
    }
}

impl RevoraRevenueShare {
    /// Proposes handing `token`'s offering to `new_issuer`; the current issuer
    /// must authorize. Only one proposal per token can be in flight.
    pub fn propose_issuer_transfer(&mut self, token: Address, new_issuer: Address) -> (r: Result<
        (),
        RevoraError,
    >)
        ensures
            old(self)@.propose_error(token) matches Some(e) ==> r == Err::<(), RevoraError>(e)
                && final(self)@ == old(self)@,
            old(self)@.propose_error(token) is None ==> {
                let current = old(self)@.current_issuer(token).unwrap();
                &&& r is Ok
                &&& final(self)@ == (LedgerView {
                    pending_issuer: old(self)@.pending_issuer.insert(token, new_issuer),
                    ..old(self)@
                }).emit(Effect::RequireAuth(current)).emit(
                    Effect::Publish(
                        Event::IssuerTransferProposed { token, current_issuer: current, new_issuer },
                    ),
                )
            },
    {
        match self.check_live() {
            Err(e) => return Err(e),
            Ok(()) => {},
        }
        let current = match self.get_current_issuer(token) {
            None => return Err(RevoraError::OfferingNotFound),
            Some(c) => c,
        };
        if self.pending_issuer.contains_key(&token) {
            return Err(RevoraError::IssuerTransferPending);
        }
        self.pending_issuer.insert(token, new_issuer);
        self.emit(Effect::RequireAuth(current));
        self.emit(
            Effect::Publish(Event::IssuerTransferProposed { token, current_issuer: current, new_issuer }),
        );
        Ok(())
    }

    /// Accepts the pending transfer of `token`; the proposed issuer must
    /// authorize. The offering moves between the issuers' lists and the issuer
    /// of record changes in one step.
    pub fn accept_issuer_transfer(&mut self, token: Address) -> (r: Result<(), RevoraError>)
        requires
            old(self)@.wf(),
        ensures
            final(self)@.wf(),
            old(self)@.accept_error(token) matches Some(e) ==> r == Err::<(), RevoraError>(e)
                && final(self)@ == old(self)@,
            old(self)@.accept_error(token) is None ==> r is Ok && final(self)@ == old(self)@.transfer_accepted(token),
    {
        match self.check_live() {
            Err(e) => return Err(e),
            Ok(()) => {},
        }
        let new_issuer = match self.get_pending_issuer_transfer(token) {
            None => return Err(RevoraError::NoTransferPending),
            Some(n) => n,
        };
        let old_issuer = match self.get_current_issuer(token) {
            None => return Err(RevoraError::OfferingNotFound),
            Some(i) => i,
        };
        let ghost s = self@.offerings_of(old_issuer);
        let index = match self.offering_index(old_issuer, token) {
            None => {
                proof {
                    assert(!exists|i: int| is_first_offering(s, token, i));
                }
                return Err(RevoraError::OfferingNotFound);
            },
            Some(i) => i,
        };
        if self.offering_len(new_issuer) >= u32::MAX as usize {
            return Err(RevoraError::LimitReached);
        }
        proof {
            let c = first_offering_index(s, token);
            assert(is_first_offering(s, token, c));
            assert(c == index as int) by {
                if c < index as int {
                    assert(s[c].token != token);
                } else if c > index as int {
                    assert(s[index as int].token != token);
                }
            }
        }
        let mut list = self.offerings.remove(&old_issuer).unwrap();
        let o = list.swap_remove(index);
        proof {
            lemma_map_values_insert(self.offerings@, old_issuer, list, |v: Vec<Offering>| v@);
        }
        self.offerings.insert(old_issuer, list);
        proof {
            assert(self@.offerings =~= old(self)@.offerings.insert(old_issuer, swap_removed(s, index as int)));
        }
        self.push_offering(new_issuer, Offering { issuer: new_issuer, ..o });
        self.issuer_of.insert(token, new_issuer);
        self.pending_issuer.remove(&token);
        self.emit(Effect::RequireAuth(new_issuer));
        self.emit(Effect::Publish(Event::IssuerTransferAccepted { token, old_issuer, new_issuer }));
        Ok(())
    }

    /// Withdraws the pending transfer of `token`; the current issuer must
    /// authorize. The issuer of record does not change.
    pub fn cancel_issuer_transfer(&mut self, token: Address) -> (r: Result<(), RevoraError>)
        ensures
            old(self)@.cancel_error(token) matches Some(e) ==> r == Err::<(), RevoraError>(e)
                && final(self)@ == old(self)@,
            old(self)@.cancel_error(token) is None ==> {
                let current = old(self)@.current_issuer(token).unwrap();
                let proposed = old(self)@.pending_of(token).unwrap();
                &&& r is Ok
                &&& final(self)@ == (LedgerView {
                    pending_issuer: old(self)@.pending_issuer.remove(token),
                    ..old(self)@
                }).emit(Effect::RequireAuth(current)).emit(
                    Effect::Publish(
                        Event::IssuerTransferCancelled {
                            token,
                            current_issuer: current,
                            proposed_issuer: proposed,
                        },
                    ),
                )
            },
    {
        match self.check_live() {
            Err(e) => return Err(e),
            Ok(()) => {},
        }
        let current = match self.get_current_issuer(token) {
            None => return Err(RevoraError::OfferingNotFound),
            Some(c) => c,
        };
        let proposed = match self.get_pending_issuer_transfer(token) {
            None => return Err(RevoraError::NoTransferPending),
            Some(p) => p,
        };
        self.pending_issuer.remove(&token);
        self.emit(Effect::RequireAuth(current));
        self.emit(
            Effect::Publish(
                Event::IssuerTransferCancelled { token, current_issuer: current, proposed_issuer: proposed },
            ),
        );
        Ok(())
    }

    /// The proposed new issuer of `token`, if a transfer is pending.
    pub fn get_pending_issuer_transfer(&self, token: Address) -> (r: Option<Address>)
        ensures
            r == self@.pending_of(token),
    {
        match self.pending_issuer.get(&token) {
            Some(p) => Some(*p),
            None => None,
        }
    }
}

} // verus!
