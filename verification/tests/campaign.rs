use crowdfunding::campaign::CampaignError;
use crowdfunding::campaign::CrowdfundingSc;
use crowdfunding::campaign::Status;

const OWNER: u64 = 1;
const DONOR_A: u64 = 7;
const DONOR_B: u64 = 8;

fn new_campaign(target: u64, deadline: u64) -> CrowdfundingSc {
    CrowdfundingSc::init(target, deadline, 10).unwrap()
}

#[test]
fn init_succeeds_on_valid_input() {
    let c = CrowdfundingSc::init(1000, 100, 10).unwrap();
    assert_eq!(c.target(), 1000);
    assert_eq!(c.deadline(), 100);
    assert_eq!(c.limit(), None);
    assert_eq!(c.limit_per_donor(), None);
    assert_eq!(c.minimum_per_donation(), None);
    assert_eq!(c.get_current_funds(), 0);
    assert_eq!(c.deposit(DONOR_A), 0);
}

#[test]
fn init_rejects_zero_target() {
    let r = CrowdfundingSc::init(0, 100, 10);
    assert_eq!(r.err(), Some(CampaignError::InvalidTarget));
}

#[test]
fn init_rejects_deadline_at_creation_time() {
    let r = CrowdfundingSc::init(1000, 10, 10);
    assert_eq!(r.err(), Some(CampaignError::DeadlineInPast));
}

#[test]
fn init_rejects_deadline_in_past() {
    let r = CrowdfundingSc::init(1000, 5, 10);
    assert_eq!(r.err(), Some(CampaignError::DeadlineInPast));
}

#[test]
fn status_is_funding_period_up_to_and_at_deadline() {
    let c = new_campaign(1000, 100);
    assert_eq!(c.status(11), Status::FundingPeriod);
    assert_eq!(c.status(100), Status::FundingPeriod);
}

#[test]
fn status_is_terminal_right_after_deadline() {
    let mut c = new_campaign(1000, 100);
    assert_eq!(c.status(101), Status::Failed);
    c.fund(DONOR_A, 1000, 50).unwrap();
    assert_eq!(c.status(101), Status::Successful);
}

#[test]
fn status_never_reverts_after_deadline() {
    let mut c = new_campaign(1000, 100);
    c.fund(DONOR_A, 300, 50).unwrap();
    assert_eq!(c.status(101), Status::Failed);
    assert_eq!(c.status(1_000_000), Status::Failed);
    c.fund(DONOR_B, 700, 60).unwrap();
    assert_eq!(c.status(101), Status::Successful);
    assert_eq!(c.status(1_000_000), Status::Successful);
}

#[test]
fn fund_credits_pool_and_donor_ledger() {
    let mut c = new_campaign(1000, 100);
    assert_eq!(c.fund(DONOR_A, 400, 50), Ok(()));
    assert_eq!(c.deposit(DONOR_A), 400);
    assert_eq!(c.get_current_funds(), 400);
    assert_eq!(c.fund(DONOR_A, 100, 60), Ok(()));
    assert_eq!(c.deposit(DONOR_A), 500);
    assert_eq!(c.fund(DONOR_B, 200, 70), Ok(()));
    assert_eq!(c.deposit(DONOR_B), 200);
    // the donor ledger entries always add up to the pooled balance
    assert_eq!(c.get_current_funds(), c.deposit(DONOR_A) + c.deposit(DONOR_B));
}

#[test]
fn fund_rejects_at_and_after_deadline() {
    let mut c = new_campaign(1000, 100);
    assert_eq!(c.fund(DONOR_A, 400, 100), Err(CampaignError::FundingClosed));
    assert_eq!(c.fund(DONOR_A, 400, 200), Err(CampaignError::FundingClosed));
    assert_eq!(c.deposit(DONOR_A), 0);
    assert_eq!(c.get_current_funds(), 0);
}

#[test]
fn fund_rejects_above_overall_limit_when_minimum_is_set() {
    let mut c = new_campaign(1000, 100);
    c.set_limit(OWNER, OWNER, 500).unwrap();
    c.set_minimum_per_donation(OWNER, OWNER, 10).unwrap();
    assert_eq!(c.fund(DONOR_A, 501, 50), Err(CampaignError::OverallLimitExceeded));
    assert_eq!(c.deposit(DONOR_A), 0);
    assert_eq!(c.get_current_funds(), 0);
    assert_eq!(c.fund(DONOR_A, 500, 50), Ok(()));
}

#[test]
fn fund_ignores_overall_limit_while_no_minimum_is_set() {
    // The overall-limit guard is gated on the minimum-donation floor
    // being set, not on the limit itself.
    let mut c = new_campaign(1000, 100);
    c.set_limit(OWNER, OWNER, 500).unwrap();
    assert_eq!(c.fund(DONOR_A, 600, 50), Ok(()));
    assert_eq!(c.get_current_funds(), 600);
}

#[test]
fn fund_rejects_below_minimum_donation() {
    let mut c = new_campaign(1000, 100);
    c.set_minimum_per_donation(OWNER, OWNER, 50).unwrap();
    assert_eq!(c.fund(DONOR_A, 49, 50), Err(CampaignError::BelowMinimumDonation));
    assert_eq!(c.deposit(DONOR_A), 0);
    assert_eq!(c.get_current_funds(), 0);
    assert_eq!(c.fund(DONOR_A, 50, 50), Ok(()));
}

#[test]
fn fund_checks_overall_limit_before_minimum() {
    let mut c = new_campaign(1000, 100);
    c.set_limit(OWNER, OWNER, 5).unwrap();
    c.set_minimum_per_donation(OWNER, OWNER, 50).unwrap();
    // the donation breaks both guards; the overall limit fires first
    assert_eq!(c.fund(DONOR_A, 6, 50), Err(CampaignError::OverallLimitExceeded));
}

#[test]
fn fund_rejects_above_per_donor_limit() {
    let mut c = new_campaign(1000, 100);
    c.set_limit_per_donor(OWNER, OWNER, 300).unwrap();
    assert_eq!(c.fund(DONOR_A, 200, 50), Ok(()));
    assert_eq!(c.fund(DONOR_A, 101, 60), Err(CampaignError::PerDonorLimitExceeded));
    assert_eq!(c.deposit(DONOR_A), 200);
    assert_eq!(c.get_current_funds(), 200);
    assert_eq!(c.fund(DONOR_A, 100, 60), Ok(()));
    assert_eq!(c.fund(DONOR_B, 300, 70), Ok(()));
}

#[test]
fn setters_reject_non_owner() {
    let mut c = new_campaign(1000, 100);
    assert_eq!(c.set_limit(DONOR_A, OWNER, 500), Err(CampaignError::Unauthorized));
    assert_eq!(c.set_limit_per_donor(DONOR_A, OWNER, 500), Err(CampaignError::Unauthorized));
    assert_eq!(c.set_minimum_per_donation(DONOR_A, OWNER, 5), Err(CampaignError::Unauthorized));
    assert_eq!(c.limit(), None);
    assert_eq!(c.limit_per_donor(), None);
    assert_eq!(c.minimum_per_donation(), None);
}

#[test]
fn setters_store_values_for_owner() {
    let mut c = new_campaign(1000, 100);
    assert_eq!(c.set_limit(OWNER, OWNER, 500), Ok(()));
    assert_eq!(c.set_limit_per_donor(OWNER, OWNER, 200), Ok(()));
    assert_eq!(c.set_minimum_per_donation(OWNER, OWNER, 5), Ok(()));
    assert_eq!(c.limit(), Some(500));
    assert_eq!(c.limit_per_donor(), Some(200));
    assert_eq!(c.minimum_per_donation(), Some(5));
    // setters may be called again at any time
    assert_eq!(c.set_limit(OWNER, OWNER, 600), Ok(()));
    assert_eq!(c.limit(), Some(600));
}

#[test]
fn claim_rejects_before_deadline() {
    let mut c = new_campaign(1000, 100);
    c.fund(DONOR_A, 400, 50).unwrap();
    assert_eq!(c.claim(OWNER, OWNER, 100), Err(CampaignError::ClaimBeforeDeadline));
    assert_eq!(c.get_current_funds(), 400);
    assert_eq!(c.deposit(DONOR_A), 400);
}

#[test]
fn claim_successful_rejects_non_owner() {
    let mut c = new_campaign(1000, 100);
    c.fund(DONOR_A, 1100, 50).unwrap();
    assert_eq!(c.claim(DONOR_A, OWNER, 101), Err(CampaignError::Unauthorized));
    assert_eq!(c.get_current_funds(), 1100);
    assert_eq!(c.deposit(DONOR_A), 1100);
}

#[test]
fn claim_successful_pays_owner_whole_pool() {
    let mut c = new_campaign(1000, 100);
    c.fund(DONOR_A, 400, 50).unwrap();
    c.fund(DONOR_B, 700, 60).unwrap();
    assert_eq!(c.get_current_funds(), 1100);
    assert_eq!(c.status(101), Status::Successful);
    assert_eq!(c.claim(OWNER, OWNER, 101), Ok(1100));
    assert_eq!(c.get_current_funds(), 0);
    // a second owner claim succeeds and pays nothing
    assert_eq!(c.claim(OWNER, OWNER, 102), Ok(0));
    assert_eq!(c.get_current_funds(), 0);
}

#[test]
fn claim_failed_refunds_donor_once() {
    let mut c = new_campaign(1000, 100);
    c.fund(DONOR_A, 300, 50).unwrap();
    assert_eq!(c.status(101), Status::Failed);
    assert_eq!(c.claim(DONOR_A, OWNER, 101), Ok(300));
    assert_eq!(c.deposit(DONOR_A), 0);
    assert_eq!(c.get_current_funds(), 0);
    // a second claim by the same donor succeeds and pays nothing
    assert_eq!(c.claim(DONOR_A, OWNER, 102), Ok(0));
    assert_eq!(c.get_current_funds(), 0);
}

#[test]
fn claim_failed_pays_nothing_to_a_stranger() {
    let mut c = new_campaign(1000, 100);
    c.fund(DONOR_A, 300, 50).unwrap();
    assert_eq!(c.claim(DONOR_B, OWNER, 101), Ok(0));
    assert_eq!(c.deposit(DONOR_A), 300);
    assert_eq!(c.get_current_funds(), 300);
}

#[test]
fn claim_reports_transfer_failure_when_pool_cannot_cover_it() {
    // After the owner drains a successful campaign the pool is empty and
    // the status turns Failed; a donor's refund then exceeds what the
    // custodian holds and is refused without touching the ledger.
    let mut c = new_campaign(10, 100);
    c.fund(DONOR_A, 50, 50).unwrap();
    assert_eq!(c.claim(OWNER, OWNER, 101), Ok(50));
    assert_eq!(c.status(102), Status::Failed);
    assert_eq!(c.claim(DONOR_A, OWNER, 102), Err(CampaignError::TransferFailed));
    assert_eq!(c.deposit(DONOR_A), 50);
    assert_eq!(c.get_current_funds(), 0);
}

#[test]
fn successful_campaign_scenario() {
    let mut c = new_campaign(1000, 100);
    assert_eq!(c.fund(DONOR_A, 400, 50), Ok(()));
    assert_eq!(c.fund(DONOR_B, 700, 60), Ok(()));
    assert_eq!(c.get_current_funds(), 1100);
    assert_eq!(c.status(101), Status::Successful);
    assert_eq!(c.claim(OWNER, OWNER, 101), Ok(1100));
    assert_eq!(c.get_current_funds(), 0);
}

#[test]
fn failed_campaign_scenario() {
    let mut c = new_campaign(1000, 100);
    assert_eq!(c.fund(DONOR_A, 300, 50), Ok(()));
    assert_eq!(c.get_current_funds(), 300);
    assert_eq!(c.status(101), Status::Failed);
    assert_eq!(c.claim(DONOR_A, OWNER, 101), Ok(300));
    assert_eq!(c.claim(DONOR_B, OWNER, 102), Ok(0));
    assert_eq!(c.get_current_funds(), 0);
}
