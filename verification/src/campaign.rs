//! The campaign ledger: configuration, per-donor accounting, status
//! derivation, and the funding and claiming rules.

use vstd::prelude::*;

use crate::ledger::deposit_of;
use crate::ledger::has_donor;
use crate::ledger::lemma_deposit_of_absent;
use crate::ledger::lemma_deposit_of_index;
use crate::ledger::lemma_deposit_of_push_new;
use crate::ledger::lemma_deposit_of_push_other;
use crate::ledger::lemma_deposit_of_update_other;
use crate::ledger::lemma_deposit_of_update_same;
use crate::ledger::lemma_sum_push;
use crate::ledger::lemma_sum_update;
use crate::ledger::lemma_unique_push;
use crate::ledger::lemma_unique_update;
use crate::ledger::sum_deposits;
use crate::ledger::unique_donors;

verus! {

/// The phase a campaign is in, derived from the current time, the
/// deadline, the pooled balance and the target. It is never stored.
#[derive(Clone, Copy, Debug, PartialEq, Eq, Structural)]
pub enum Status {
    FundingPeriod,
    Successful,
    Failed,
}

/// Why a call was rejected. Every rejection leaves the ledger unchanged.
#[derive(Clone, Copy, Debug, PartialEq, Eq, Structural)]
pub enum CampaignError {
    /// The target handed to `init` was zero.
    InvalidTarget,
    /// The deadline handed to `init` was not after the creation time.
    DeadlineInPast,
    /// An owner-gated action was invoked by someone else.
    Unauthorized,
    /// A donation arrived at or after the deadline.
    FundingClosed,
    /// A claim arrived while the funding period was still open.
    ClaimBeforeDeadline,
    /// The donation would push the pooled balance above the overall limit.
    OverallLimitExceeded,
    /// The donation is below the configured minimum per donation.
    BelowMinimumDonation,
    /// The donation would push the donor's total above the per-donor limit.
    PerDonorLimitExceeded,
    /// The pool does not hold the amount the custodian was asked to move.
    TransferFailed,
}

/// A campaign: its immutable creation-time configuration, the optional
/// caps and floor the owner may adjust, the donor ledger, and the pooled
/// balance held by the funds custodian on the campaign's behalf.
///
/// Donor identities and value amounts are plain integers: the ledger only
/// ever compares identities and adds or compares amounts.
pub struct CrowdfundingSc {
    /// Amount the pool must reach for the campaign to succeed.
    pub target: u64,
    /// Timestamp up to which (inclusively) donations are accepted.
    pub deadline: u64,
    /// Optional cap on the pooled balance; `None` means no cap.
    pub limit: Option<u64>,
    /// Optional cap on a single donor's cumulative deposit.
    pub limit_per_donor: Option<u64>,
    /// Optional floor on a single donation.
    pub minimum_per_donation: Option<u64>,
    /// One `(donor, cumulative amount)` entry per donor that ever funded.
    pub deposits: Vec<(u64, u64)>,
    /// The custodian balance pooled for this campaign.
    pub pooled: u64,
}

impl CrowdfundingSc {
    /// Well-formedness: the target is positive (established at creation)
    /// and no donor owns two ledger entries.
    pub open spec fn wf(self) -> bool {
        &&& self.target > 0
        &&& unique_donors(self.deposits@)
    }

    /// The donor ledger accounts for the pool: the entries add up to the
    /// pooled balance. `init` establishes this, every successful `fund`
    /// and every refund preserves it; only a successful owner claim
    /// breaks it, by design, when it drains the pool and keeps the
    /// ledger.
    pub open spec fn accounted(self) -> bool {
        sum_deposits(self.deposits@) == self.pooled
    }

    /// Status derivation: the funding period runs up to and including the
    /// deadline; strictly after it the campaign is settled by comparing
    /// the pooled balance against the target.
    pub open spec fn spec_status(self, current_time: u64) -> Status {
        if current_time <= self.deadline {
            Status::FundingPeriod
        } else if self.pooled >= self.target {
            Status::Successful
        } else {
            Status::Failed
        }
    }

    /// Creates a campaign. Rejects a zero target and a deadline that is
    /// not strictly after the creation time; on success every optional
    /// cap starts unset, the ledger empty and the pool drained.
    pub fn init(target: u64, deadline: u64, creation_time: u64) -> (r: Result<
        CrowdfundingSc,
        CampaignError,
    >)
        ensures
            r is Ok <==> target > 0 && deadline > creation_time,
            target == 0 ==> (r matches Err(e) && e == CampaignError::InvalidTarget),
            target > 0 && deadline <= creation_time ==> (r matches Err(e) && e
                == CampaignError::DeadlineInPast),
            r matches Ok(c) ==> {
                &&& c.wf()
                &&& c.target == target
                &&& c.deadline == deadline
                &&& c.limit is None
                &&& c.limit_per_donor is None
                &&& c.minimum_per_donation is None
                &&& c.deposits@.len() == 0
                &&& c.pooled == 0
                &&& c.accounted()
            },
    {
        if target == 0 {
            return Err(CampaignError::InvalidTarget);
        }
        if deadline <= creation_time {
            return Err(CampaignError::DeadlineInPast);
        }
        Ok(
            CrowdfundingSc {
                target,
                deadline,
                limit: None,
                limit_per_donor: None,
                minimum_per_donation: None,
                deposits: Vec::new(),
                pooled: 0,
            },
        )
    }

    /// The derived status at `current_time`; a pure read.
    pub fn status(&self, current_time: u64) -> (r: Status)
        ensures
            r == self.spec_status(current_time),
    {
        if current_time <= self.deadline {
            Status::FundingPeriod
        } else if self.pooled >= self.target {
            Status::Successful
        } else {
            Status::Failed
        }
    }

    /// The pooled balance the custodian currently holds; a pure read.
    pub fn get_current_funds(&self) -> (r: u64)
        ensures
            r == self.pooled,
    {
        self.pooled
    }

    /// The index of the ledger entry carrying `donor`, if there is one;
    /// the scan stops at the first match.
    fn find_donor(&self, donor: u64) -> (r: Option<usize>)
        ensures
            match r {
                Some(i) => i < self.deposits@.len() && self.deposits@[i as int].0 == donor,
                None => !has_donor(self.deposits@, donor),
            },
    {
        let mut i: usize = 0;
        while i < self.deposits.len()
            invariant
                i <= self.deposits@.len(),
                forall|j: int| 0 <= j < i ==> self.deposits@[j].0 != donor,
            decreases self.deposits@.len() - i,
        {
            if self.deposits[i].0 == donor {
                return Some(i);
            }
            i = i + 1;
        }
        None
    }

    /// The donor's cumulative deposit; zero for a donor that never
    /// funded or was already refunded.
    pub fn deposit(&self, donor: u64) -> (r: u64)
        requires
            self.wf(),
        ensures
            r == deposit_of(self.deposits@, donor),
    {
        match self.find_donor(donor) {
            Some(i) => {
                proof {
                    lemma_deposit_of_index(self.deposits@, i as int);
                }
                self.deposits[i].1
            },
            None => {
                proof {
                    lemma_deposit_of_absent(self.deposits@, donor);
                }
                0
            },
        }
    }

    /// Sets the donor's ledger entry to `value`, creating the entry when
    /// the donor has none yet; no other entry moves.
    fn set_deposit(&mut self, donor: u64, value: u64)
        requires
            unique_donors(old(self).deposits@),
        ensures
            unique_donors(final(self).deposits@),
            deposit_of(final(self).deposits@, donor) == value,
            forall|d: u64|
                d != donor ==> deposit_of(final(self).deposits@, d) == deposit_of(
                    old(self).deposits@,
                    d,
                ),
            sum_deposits(final(self).deposits@) == sum_deposits(old(self).deposits@) - deposit_of(
                old(self).deposits@,
                donor,
            ) + value,
            final(self).target == old(self).target,
            final(self).deadline == old(self).deadline,
            final(self).limit == old(self).limit,
            final(self).limit_per_donor == old(self).limit_per_donor,
            final(self).minimum_per_donation == old(self).minimum_per_donation,
            final(self).pooled == old(self).pooled,
    {
        let ghost s0 = self.deposits@;
        match self.find_donor(donor) {
            Some(i) => {
                self.deposits[i] = (donor, value);
                proof {
                    assert(self.deposits@ =~= s0.update(i as int, (donor, value)));
                    lemma_deposit_of_index(s0, i as int);
                    lemma_sum_update(s0, i as int, (donor, value));
                    lemma_deposit_of_update_same(s0, i as int, value);
                    lemma_unique_update(s0, i as int, value);
                    assert forall|d: u64|
                        d != donor implies deposit_of(self.deposits@, d) == deposit_of(s0, d) by {
                        lemma_deposit_of_update_other(s0, i as int, value, d);
                    }
                }
            },
            None => {
                self.deposits.push((donor, value));
                proof {
                    lemma_deposit_of_absent(s0, donor);
                    lemma_sum_push(s0, (donor, value));
                    lemma_deposit_of_push_new(s0, (donor, value));
                    lemma_unique_push(s0, (donor, value));
                    assert forall|d: u64|
                        d != donor implies deposit_of(self.deposits@, d) == deposit_of(s0, d) by {
                        lemma_deposit_of_push_other(s0, (donor, value), d);
                    }
                }
            },
        }
    }

    /// What `fund` decides for a given call: the first guard that fires,
    /// or `Ok` when the donation is accepted. Guards fire in this order:
    /// the deadline, then — only while a minimum per donation is
    /// configured — the overall pool cap, then the donation floor itself,
    /// and last the per-donor cap.
    pub open spec fn fund_outcome(self, caller: u64, amount: u64, current_time: u64) -> Result<
        (),
        CampaignError,
    > {
        if current_time >= self.deadline {
            Err(CampaignError::FundingClosed)
        } else if self.minimum_per_donation is Some && self.limit is Some && self.pooled + amount
            > self.limit->Some_0 {
            Err(CampaignError::OverallLimitExceeded)
        } else if self.minimum_per_donation is Some && amount < self.minimum_per_donation->Some_0 {
            Err(CampaignError::BelowMinimumDonation)
        } else if self.limit_per_donor is Some && deposit_of(self.deposits@, caller) + amount
            > self.limit_per_donor->Some_0 {
            Err(CampaignError::PerDonorLimitExceeded)
        } else {
            Ok(())
        }
    }

    /// Accepts or rejects a donation of `amount` by `caller` at
    /// `current_time`. Every guard is evaluated before any mutation; a
    /// rejection leaves the campaign untouched. An accepted donation
    /// credits the pool and the donor's ledger entry by exactly `amount`,
    /// so a ledger that accounted for the pool still does.
    pub fn fund(&mut self, caller: u64, amount: u64, current_time: u64) -> (r: Result<
        (),
        CampaignError,
    >)
        requires
            old(self).wf(),
            old(self).pooled + amount <= u64::MAX,
            deposit_of(old(self).deposits@, caller) + amount <= u64::MAX,
        ensures
            final(self).wf(),
            r == old(self).fund_outcome(caller, amount, current_time),
            r is Err ==> *final(self) == *old(self),
            r is Ok ==> {
                &&& final(self).pooled == old(self).pooled + amount
                &&& deposit_of(final(self).deposits@, caller) == deposit_of(
                    old(self).deposits@,
                    caller,
                ) + amount
                &&& (forall|d: u64|
                    d != caller ==> deposit_of(final(self).deposits@, d) == deposit_of(
                        old(self).deposits@,
                        d,
                    ))
                &&& sum_deposits(final(self).deposits@) == sum_deposits(old(self).deposits@)
                    + amount
                &&& final(self).target == old(self).target
                &&& final(self).deadline == old(self).deadline
                &&& final(self).limit == old(self).limit
                &&& final(self).limit_per_donor == old(self).limit_per_donor
                &&& final(self).minimum_per_donation == old(self).minimum_per_donation
            },
            r is Ok && old(self).accounted() ==> final(self).accounted(),
    {
        if current_time >= self.deadline {
            return Err(CampaignError::FundingClosed);
        }
        let proposed_balance = self.pooled + amount;
        match (self.minimum_per_donation, self.limit) {
            (Some(_), Some(l)) => {
                if proposed_balance > l {
                    return Err(CampaignError::OverallLimitExceeded);
                }
            },
            _ => {},
        }
        match self.minimum_per_donation {
            Some(m) => {
                if amount < m {
                    return Err(CampaignError::BelowMinimumDonation);
                }
            },
            None => {},
        }
        let deposited_amount = self.deposit(caller);
        let proposed_amount = deposited_amount + amount;
        match self.limit_per_donor {
            Some(l) => {
                if proposed_amount > l {
                    return Err(CampaignError::PerDonorLimitExceeded);
                }
            },
            None => {},
        }
        self.set_deposit(caller, proposed_amount);
        self.pooled = proposed_balance;
        Ok(())
    }

    /// What `claim` decides for a given call. While the funding period is
    /// open nothing can be claimed. Once successful, only the owner may
    /// drain the whole pool. Once failed, any caller recovers exactly
    /// their own recorded deposit — the custodian refuses to move more
    /// than the pool holds.
    pub open spec fn claim_outcome(self, caller: u64, owner: u64, current_time: u64) -> Result<
        u64,
        CampaignError,
    > {
        match self.spec_status(current_time) {
            Status::FundingPeriod => Err(CampaignError::ClaimBeforeDeadline),
            Status::Successful => if caller != owner {
                Err(CampaignError::Unauthorized)
            } else {
                Ok(self.pooled)
            },
            Status::Failed => if deposit_of(self.deposits@, caller) > self.pooled {
                Err(CampaignError::TransferFailed)
            } else {
                Ok(deposit_of(self.deposits@, caller))
            },
        }
    }

    /// Settles a claim by `caller` at `current_time` and returns the
    /// amount the custodian pays out to the caller. A rejection leaves
    /// the campaign untouched; a successful owner claim drains the pool
    /// and leaves the ledger as it was; a refund clears exactly the
    /// caller's entry and pays exactly that amount out of the pool.
    /// Repeating a settled claim succeeds and pays zero.
    pub fn claim(&mut self, caller: u64, owner: u64, current_time: u64) -> (r: Result<
        u64,
        CampaignError,
    >)
        requires
            old(self).wf(),
        ensures
            final(self).wf(),
            r == old(self).claim_outcome(caller, owner, current_time),
            r is Err ==> *final(self) == *old(self),
            final(self).target == old(self).target,
            final(self).deadline == old(self).deadline,
            final(self).limit == old(self).limit,
            final(self).limit_per_donor == old(self).limit_per_donor,
            final(self).minimum_per_donation == old(self).minimum_per_donation,
            old(self).spec_status(current_time) == Status::FundingPeriod
                ==> *final(self) == *old(self),
            old(self).spec_status(current_time) == Status::Successful && caller != owner
                ==> *final(self) == *old(self),
            old(self).spec_status(current_time) == Status::Successful && caller == owner ==> {
                &&& r == Ok::<u64, CampaignError>(old(self).pooled)
                &&& final(self).pooled == 0
                &&& final(self).deposits@ == old(self).deposits@
            },
            old(self).spec_status(current_time) == Status::Failed && r is Ok ==> {
                &&& r == Ok::<u64, CampaignError>(deposit_of(old(self).deposits@, caller))
                &&& deposit_of(final(self).deposits@, caller) == 0
                &&& (forall|d: u64|
                    d != caller ==> deposit_of(final(self).deposits@, d) == deposit_of(
                        old(self).deposits@,
                        d,
                    ))
                &&& final(self).pooled == old(self).pooled - deposit_of(
                    old(self).deposits@,
                    caller,
                )
                &&& sum_deposits(final(self).deposits@) == sum_deposits(old(self).deposits@)
                    - deposit_of(old(self).deposits@, caller)
            },
            old(self).spec_status(current_time) == Status::Failed && r is Ok
                && old(self).accounted() ==> final(self).accounted(),
    {
        let status = self.status(current_time);
        match status {
            Status::FundingPeriod => Err(CampaignError::ClaimBeforeDeadline),
            Status::Successful => {
                if caller != owner {
                    return Err(CampaignError::Unauthorized);
                }
                let sc_balance = self.pooled;
                self.pooled = 0;
                Ok(sc_balance)
            },
            Status::Failed => {
                let deposit = self.deposit(caller);
                if deposit > self.pooled {
                    return Err(CampaignError::TransferFailed);
                }
                if deposit > 0 {
                    self.set_deposit(caller, 0);
                    self.pooled = self.pooled - deposit;
                    Ok(deposit)
                } else {
                    Ok(0)
                }
            },
        }
    }

    /// Owner-only: caps the pooled balance. Rejected for any other
    /// caller, with nothing changed.
    pub fn set_limit(&mut self, caller: u64, owner: u64, limit: u64) -> (r: Result<
        (),
        CampaignError,
    >)
        ensures
            caller != owner ==> (r matches Err(e) && e == CampaignError::Unauthorized)
                && *final(self) == *old(self),
            caller == owner ==> {
                &&& r is Ok
                &&& final(self).limit == Some(limit)
                &&& final(self).target == old(self).target
                &&& final(self).deadline == old(self).deadline
                &&& final(self).limit_per_donor == old(self).limit_per_donor
                &&& final(self).minimum_per_donation == old(self).minimum_per_donation
                &&& final(self).deposits == old(self).deposits
                &&& final(self).pooled == old(self).pooled
            },
    {
        if caller != owner {
            return Err(CampaignError::Unauthorized);
        }
        self.limit = Some(limit);
        Ok(())
    }

    /// Owner-only: caps any single donor's cumulative deposit. Rejected
    /// for any other caller, with nothing changed.
    pub fn set_limit_per_donor(&mut self, caller: u64, owner: u64, limit_per_donor: u64) -> (r:
        Result<(), CampaignError>)
        ensures
            caller != owner ==> (r matches Err(e) && e == CampaignError::Unauthorized)
                && *final(self) == *old(self),
            caller == owner ==> {
                &&& r is Ok
                &&& final(self).limit_per_donor == Some(limit_per_donor)
                &&& final(self).target == old(self).target
                &&& final(self).deadline == old(self).deadline
                &&& final(self).limit == old(self).limit
                &&& final(self).minimum_per_donation == old(self).minimum_per_donation
                &&& final(self).deposits == old(self).deposits
                &&& final(self).pooled == old(self).pooled
            },
    {
        if caller != owner {
            return Err(CampaignError::Unauthorized);
        }
        self.limit_per_donor = Some(limit_per_donor);
        Ok(())
    }

    /// Owner-only: sets the floor on a single donation. Rejected for any
    /// other caller, with nothing changed.
    pub fn set_minimum_per_donation(&mut self, caller: u64, owner: u64, minimum_per_donation: u64)
        -> (r: Result<(), CampaignError>)
        ensures
            caller != owner ==> (r matches Err(e) && e == CampaignError::Unauthorized)
                && *final(self) == *old(self),
            caller == owner ==> {
                &&& r is Ok
                &&& final(self).minimum_per_donation == Some(minimum_per_donation)
                &&& final(self).target == old(self).target
                &&& final(self).deadline == old(self).deadline
                &&& final(self).limit == old(self).limit
                &&& final(self).limit_per_donor == old(self).limit_per_donor
                &&& final(self).deposits == old(self).deposits
                &&& final(self).pooled == old(self).pooled
            },
    {
        if caller != owner {
            return Err(CampaignError::Unauthorized);
        }
        self.minimum_per_donation = Some(minimum_per_donation);
        Ok(())
    }

    /// The configured target; a pure read.
    pub fn target(&self) -> (r: u64)
        ensures
            r == self.target,
    {
        self.target
    }

    /// The configured deadline; a pure read.
    pub fn deadline(&self) -> (r: u64)
        ensures
            r == self.deadline,
    {
        self.deadline
    }

    /// The overall pool cap, if one is set; a pure read.
    pub fn limit(&self) -> (r: Option<u64>)
        ensures
            r == self.limit,
    {
        self.limit
    }

    /// The per-donor cap, if one is set; a pure read.
    pub fn limit_per_donor(&self) -> (r: Option<u64>)
        ensures
            r == self.limit_per_donor,
    {
        self.limit_per_donor
    }

    /// The donation floor, if one is set; a pure read.
    pub fn minimum_per_donation(&self) -> (r: Option<u64>)
        ensures
            r == self.minimum_per_donation,
    {
        self.minimum_per_donation
    }
}

} // verus!
