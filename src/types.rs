//! Small value types used at the edges of the ledger.
use vstd::prelude::*;

verus! {

/// Basis points: 0 to 10000 (0% to 100%).
#[derive(Clone, Copy, Debug, PartialEq, Eq, Structural)]
pub struct Bps(pub u32);

/// Identifier of a revenue period.
#[derive(Clone, Copy, Debug, PartialEq, Eq, Structural)]
pub struct PeriodId(pub u64);

/// An amount of revenue in some asset.
#[derive(Clone, Copy, Debug, PartialEq, Eq, Structural)]
pub struct RevenueAmount(pub i128);

impl From<u32> for Bps {
    fn from(val: u32) -> (r: Bps)
        ensures
            r.0 == val,
    {
        Bps(val)
    }
}

impl vstd::std_specs::convert::FromSpecImpl<u32> for Bps {
    open spec fn obeys_from_spec() -> bool {
        true
    }

    open spec fn from_spec(v: u32) -> Bps {
        Bps(v)
    }
}

impl From<Bps> for u32 {
    fn from(bps: Bps) -> (r: u32)
        ensures
            r == bps.0,
    {
        bps.0
    }
}

impl vstd::std_specs::convert::FromSpecImpl<Bps> for u32 {
    open spec fn obeys_from_spec() -> bool {
        true
    }

    open spec fn from_spec(v: Bps) -> u32 {
        v.0
    }
}

impl From<u64> for PeriodId {
    fn from(val: u64) -> (r: PeriodId)
        ensures
            r.0 == val,
    {
        PeriodId(val)
    }
}

impl vstd::std_specs::convert::FromSpecImpl<u64> for PeriodId {
    open spec fn obeys_from_spec() -> bool {
        true
    }

    open spec fn from_spec(v: u64) -> PeriodId {
        PeriodId(v)
    }
}

impl From<PeriodId> for u64 {
    fn from(pid: PeriodId) -> (r: u64)
        ensures
            r == pid.0,
    {
        pid.0
    }
}

impl vstd::std_specs::convert::FromSpecImpl<PeriodId> for u64 {
    open spec fn obeys_from_spec() -> bool {
        true
    }

    open spec fn from_spec(v: PeriodId) -> u64 {
        v.0
    }
}

impl From<i128> for RevenueAmount {
    fn from(val: i128) -> (r: RevenueAmount)
        ensures
            r.0 == val,
    {
        RevenueAmount(val)
    }
}

impl vstd::std_specs::convert::FromSpecImpl<i128> for RevenueAmount {
    open spec fn obeys_from_spec() -> bool {
        true
    }

    open spec fn from_spec(v: i128) -> RevenueAmount {
        RevenueAmount(v)
    }
}

impl From<RevenueAmount> for i128 {
    fn from(amount: RevenueAmount) -> (r: i128)
        ensures
            r == amount.0,
    {
        amount.0
    }
}

impl vstd::std_specs::convert::FromSpecImpl<RevenueAmount> for i128 {
    open spec fn obeys_from_spec() -> bool {
        true
    }

    open spec fn from_spec(v: RevenueAmount) -> i128 {
        v.0
    }
}

} // verus!
