//! Access and lifecycle control: admin and safety roles, pause, freeze,
//! testnet relaxation and event versioning.
use vstd::prelude::*;
use crate::error::RevoraError;
use crate::state::{Address, Effect, Event, LedgerView, RevoraRevenueShare};

verus! {

impl RevoraRevenueShare {
    /// Sets the admin and the optional safety role. Callable once.
    pub fn initialize(&mut self, admin: Address, safety: Option<Address>)
        requires
            old(self)@.admin is None,
        ensures
            final(self)@ == (LedgerView {
                admin: Some(admin),
                safety: if safety is Some { safety } else { old(self)@.safety },
                paused: false,
                ..old(self)@
            }).emit(Effect::Publish(Event::Initialized { admin, safety })),
    {
        self.admin = Some(admin);
        if safety.is_some() {
            self.safety = safety;
        }
        self.paused = false;
        self.emit(Effect::Publish(Event::Initialized { admin, safety }));
    }

    /// Pauses state-changing operations; admin only. Idempotent.
    pub fn pause_admin(&mut self, caller: Address) -> (r: Result<(), RevoraError>)
        ensures
            old(self)@.admin is None ==> r == Err::<(), RevoraError>(RevoraError::LimitReached)
                && final(self)@ == old(self)@,
            old(self)@.admin is Some && old(self)@.admin != Some(caller) ==> r == Err::<
                (),
                RevoraError,
            >(RevoraError::Unauthorized) && final(self)@ == old(self)@,
            old(self)@.admin == Some(caller) ==> r is Ok && final(self)@ == (LedgerView {
                paused: true,
                ..old(self)@
            }).emit(Effect::RequireAuth(caller)).emit(Effect::Publish(Event::Paused { caller })),
    {
        match self.admin {
            None => Err(RevoraError::LimitReached),
            Some(a) => {
                if a != caller {
                    return Err(RevoraError::Unauthorized);
                }
                self.paused = true;
                self.emit(Effect::RequireAuth(caller));
                self.emit(Effect::Publish(Event::Paused { caller }));
                Ok(())
            },
        }
    }

    /// Lifts a pause; admin only. Idempotent.
    pub fn unpause_admin(&mut self, caller: Address) -> (r: Result<(), RevoraError>)
        ensures
            old(self)@.admin is None ==> r == Err::<(), RevoraError>(RevoraError::LimitReached)
                && final(self)@ == old(self)@,
            old(self)@.admin is Some && old(self)@.admin != Some(caller) ==> r == Err::<
                (),
                RevoraError,
            >(RevoraError::Unauthorized) && final(self)@ == old(self)@,
            old(self)@.admin == Some(caller) ==> r is Ok && final(self)@ == (LedgerView {
                paused: false,
                ..old(self)@
            }).emit(Effect::RequireAuth(caller)).emit(Effect::Publish(Event::Unpaused { caller })),
    {
        match self.admin {
            None => Err(RevoraError::LimitReached),
            Some(a) => {
                if a != caller {
                    return Err(RevoraError::Unauthorized);
                }
                self.paused = false;
                self.emit(Effect::RequireAuth(caller));
                self.emit(Effect::Publish(Event::Unpaused { caller }));
                Ok(())
            },
        }
    }

    /// Pauses state-changing operations; safety role only. Idempotent.
    pub fn pause_safety(&mut self, caller: Address) -> (r: Result<(), RevoraError>)
        ensures
            old(self)@.safety is None ==> r == Err::<(), RevoraError>(RevoraError::LimitReached)
                && final(self)@ == old(self)@,
            old(self)@.safety is Some && old(self)@.safety != Some(caller) ==> r == Err::<
                (),
                RevoraError,
            >(RevoraError::Unauthorized) && final(self)@ == old(self)@,
            old(self)@.safety == Some(caller) ==> r is Ok && final(self)@ == (LedgerView {
                paused: true,
                ..old(self)@
            }).emit(Effect::RequireAuth(caller)).emit(Effect::Publish(Event::Paused { caller })),
    {
        match self.safety {
            None => Err(RevoraError::LimitReached),
            Some(a) => {
                if a != caller {
                    return Err(RevoraError::Unauthorized);
                }
                self.paused = true;
                self.emit(Effect::RequireAuth(caller));
                self.emit(Effect::Publish(Event::Paused { caller }));
                Ok(())
            },
        }
    }

    /// Lifts a pause; safety role only. Idempotent.
    pub fn unpause_safety(&mut self, caller: Address) -> (r: Result<(), RevoraError>)
        ensures
            old(self)@.safety is None ==> r == Err::<(), RevoraError>(RevoraError::LimitReached)
                && final(self)@ == old(self)@,
            old(self)@.safety is Some && old(self)@.safety != Some(caller) ==> r == Err::<
                (),
                RevoraError,
            >(RevoraError::Unauthorized) && final(self)@ == old(self)@,
            old(self)@.safety == Some(caller) ==> r is Ok && final(self)@ == (LedgerView {
                paused: false,
                ..old(self)@
            }).emit(Effect::RequireAuth(caller)).emit(Effect::Publish(Event::Unpaused { caller })),
    {
        match self.safety {
            None => Err(RevoraError::LimitReached),
            Some(a) => {
                if a != caller {
                    return Err(RevoraError::Unauthorized);
                }
                self.paused = false;
                self.emit(Effect::RequireAuth(caller));
                self.emit(Effect::Publish(Event::Unpaused { caller }));
                Ok(())
            },
        }
    }

    pub fn is_paused(&self) -> (r: bool)
        ensures
            r == self@.paused,
    {
        self.paused
    }

    /// Sets the admin once; the new admin must authorize.
    pub fn set_admin(&mut self, admin: Address) -> (r: Result<(), RevoraError>)
        ensures
            old(self)@.admin is Some ==> r == Err::<(), RevoraError>(RevoraError::LimitReached)
                && final(self)@ == old(self)@,
            old(self)@.admin is None ==> r is Ok && final(self)@ == (LedgerView {
                admin: Some(admin),
                ..old(self)@
            }).emit(Effect::RequireAuth(admin)).emit(Effect::Publish(Event::AdminSet { admin })),
    {
        if self.admin.is_some() {
            return Err(RevoraError::LimitReached);
        }
        self.admin = Some(admin);
        self.emit(Effect::RequireAuth(admin));
        self.emit(Effect::Publish(Event::AdminSet { admin }));
        Ok(())
    }

    pub fn get_admin(&self) -> (r: Option<Address>)
        ensures
            r == self@.admin,
    {
        self.admin
    }

    /// Freezes the ledger for good; admin only. There is no way back.
    pub fn freeze(&mut self) -> (r: Result<(), RevoraError>)
        ensures
            old(self)@.admin is None ==> r == Err::<(), RevoraError>(RevoraError::LimitReached)
                && final(self)@ == old(self)@,
            old(self)@.admin matches Some(a) ==> r is Ok && final(self)@ == (LedgerView {
                frozen: true,
                ..old(self)@
            }).emit(Effect::RequireAuth(a)).emit(Effect::Publish(Event::Frozen { admin: a })),
    {
        match self.admin {
            None => Err(RevoraError::LimitReached),
            Some(a) => {
                self.frozen = true;
                self.emit(Effect::RequireAuth(a));
                self.emit(Effect::Publish(Event::Frozen { admin: a }));
                Ok(())
            },
        }
    }

    pub fn is_frozen(&self) -> (r: bool)
        ensures
            r == self@.frozen,
    {
        self.frozen
    }

    /// Turns testnet mode on or off; admin only. Testnet mode skips bps
    /// validation on registration and concentration enforcement on reports.
    pub fn set_testnet_mode(&mut self, enabled: bool) -> (r: Result<(), RevoraError>)
        ensures
            old(self)@.admin is None ==> r == Err::<(), RevoraError>(RevoraError::LimitReached)
                && final(self)@ == old(self)@,
            old(self)@.admin matches Some(a) ==> r is Ok && final(self)@ == (LedgerView {
                testnet_mode: enabled,
                ..old(self)@
            }).emit(Effect::RequireAuth(a)).emit(
                Effect::Publish(Event::TestnetModeSet { admin: a, enabled }),
            ),
    {
        match self.admin {
            None => Err(RevoraError::LimitReached),
            Some(a) => {
                self.testnet_mode = enabled;
                self.emit(Effect::RequireAuth(a));
                self.emit(Effect::Publish(Event::TestnetModeSet { admin: a, enabled }));
                Ok(())
            },
        }
    }

    pub fn is_testnet_mode(&self) -> (r: bool)
        ensures
            r == self@.testnet_mode,
    {
        self.testnet_mode
    }

    /// Turns the schema-versioned events on or off; admin only.
    pub fn set_event_versioning(&mut self, enabled: bool) -> (r: Result<(), RevoraError>)
        ensures
            old(self)@.admin is None ==> r == Err::<(), RevoraError>(RevoraError::LimitReached)
                && final(self)@ == old(self)@,
            old(self)@.admin matches Some(a) ==> r is Ok && final(self)@ == (LedgerView {
                event_versioning: enabled,
                ..old(self)@
            }).emit(Effect::RequireAuth(a)).emit(
                Effect::Publish(Event::EventVersioningSet { admin: a, enabled }),
            ),
    {
        match self.admin {
            None => Err(RevoraError::LimitReached),
            Some(a) => {
                self.event_versioning = enabled;
                self.emit(Effect::RequireAuth(a));
                self.emit(Effect::Publish(Event::EventVersioningSet { admin: a, enabled }));
                Ok(())
            },
        }
    }

    pub fn is_event_versioning_enabled(&self) -> (r: bool)
        ensures
            r == self@.event_versioning,
    {
        self.event_versioning
    }
}

} // verus!
