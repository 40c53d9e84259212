//! Properties that hold across the campaign's operations, stated and
//! proved once for every campaign.

use vstd::prelude::*;

use crate::campaign::CrowdfundingSc;
use crate::campaign::Status;

verus! {

/// Status is monotonic along time for a fixed pooled balance: once the
/// current time is strictly past the deadline the status is terminal,
/// and it stays the same at every later time.
pub proof fn lemma_status_monotonic(c: CrowdfundingSc, t1: u64, t2: u64)
    requires
        c.deadline < t1,
        t1 <= t2,
    ensures
        c.spec_status(t1) != Status::FundingPeriod,
        c.spec_status(t2) == c.spec_status(t1),
{
}

/// The deadline boundary: exactly at the deadline the campaign is still
/// in its funding period; one instant later it is terminal.
pub proof fn lemma_status_boundary(c: CrowdfundingSc)
    requires
        c.deadline < u64::MAX,
    ensures
        c.spec_status(c.deadline) == Status::FundingPeriod,
        c.spec_status((c.deadline + 1) as u64) != Status::FundingPeriod,
{
}

} // verus!
