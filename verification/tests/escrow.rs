use first_sc::deal::EscrowError;
use first_sc::deal::Payment;
use first_sc::sc::FirstSc;
use first_sc::sc::FirstScImpl;

#[test]
fn fund_valid_creates_deal() {
    let mut sc = FirstScImpl::init();
    assert_eq!(sc.get_deal_id(), 0);
    let first = sc.fund(1, 2, 100, 10, 20, 30, 0);
    assert_eq!(first, Ok(0));
    assert_eq!(sc.get_deal_id(), 1);
    assert_eq!(
        sc.get_deal(0),
        Some(Payment {
            donor: 1,
            claimer: 2,
            first_payday: 10,
            second_payday: 20,
            reclaim_payday: 30,
            funds: 100,
        })
    );
    let second = sc.fund(5, 6, 7, 100, 200, 300, 50);
    assert_eq!(second, Ok(1));
    assert_eq!(sc.get_deal_id(), 2);
}

#[test]
fn fund_accepts_deadlines_near_the_largest_epoch() {
    let mut sc = FirstScImpl::init();
    let res = sc.fund(1, 2, u64::MAX, u64::MAX - 2, u64::MAX - 1, u64::MAX, u64::MAX - 3);
    assert_eq!(res, Ok(0));
    assert_eq!(sc.get_deal(0).unwrap().funds, u64::MAX);
}

#[test]
fn fund_rejects_equal_first_and_second() {
    let mut sc = FirstScImpl::init();
    let res = sc.fund(1, 2, 100, 10, 10, 30, 0);
    assert_eq!(res, Err(EscrowError::InvalidDeadlines));
    assert_eq!(sc.get_deal_id(), 0);
    assert_eq!(sc.get_deal(0), None);
}

#[test]
fn fund_rejects_reclaim_at_or_before_second() {
    let mut sc = FirstScImpl::init();
    assert_eq!(sc.fund(1, 2, 100, 10, 20, 20, 0), Err(EscrowError::InvalidDeadlines));
    assert_eq!(sc.fund(1, 2, 100, 10, 20, 15, 0), Err(EscrowError::InvalidDeadlines));
    assert_eq!(sc.get_deal_id(), 0);
    assert_eq!(sc.get_deal(0), None);
}

#[test]
fn fund_rejects_first_not_in_the_future() {
    let mut sc = FirstScImpl::init();
    assert_eq!(sc.fund(1, 2, 100, 10, 20, 30, 10), Err(EscrowError::InvalidDeadlines));
    assert_eq!(sc.fund(1, 2, 100, 10, 20, 30, 12), Err(EscrowError::InvalidDeadlines));
    assert_eq!(sc.get_deal_id(), 0);
    assert_eq!(sc.get_deal(0), None);
}

#[test]
fn scenario_two_tranche_claims() {
    let mut sc = FirstScImpl::init();
    assert_eq!(sc.fund(1, 2, 100, 10, 20, 30, 0), Ok(0));
    assert_eq!(sc.claim(0, 2, 15), Ok(50));
    let after_first = sc.get_deal(0).unwrap();
    assert_eq!(after_first.funds, 50);
    assert_eq!(after_first.first_payday, 0);
    assert_eq!(after_first.second_payday, 20);
    assert_eq!(sc.claim(0, 2, 25), Ok(50));
    assert_eq!(sc.get_deal(0), None);
}

#[test]
fn scenario_claim_before_first_deadline() {
    let mut sc = FirstScImpl::init();
    assert_eq!(sc.fund(1, 2, 100, 10, 20, 30, 0), Ok(0));
    assert_eq!(sc.claim(0, 2, 5), Err(EscrowError::ClaimTooEarly));
    assert_eq!(sc.get_deal(0).unwrap().funds, 100);
}

#[test]
fn scenario_donor_reclaims_untouched_deal() {
    let mut sc = FirstScImpl::init();
    assert_eq!(sc.fund(1, 2, 100, 10, 20, 30, 0), Ok(0));
    assert_eq!(sc.claim(0, 1, 35), Ok(100));
    assert_eq!(sc.get_deal(0), None);
}

#[test]
fn scenario_stranger_is_rejected_at_any_epoch() {
    let mut sc = FirstScImpl::init();
    assert_eq!(sc.fund(1, 2, 100, 10, 20, 30, 0), Ok(0));
    let expected = Payment {
        donor: 1,
        claimer: 2,
        first_payday: 10,
        second_payday: 20,
        reclaim_payday: 30,
        funds: 100,
    };
    for epoch in [0u64, 5, 15, 25, 35, u64::MAX] {
        assert_eq!(sc.claim(0, 3, epoch), Err(EscrowError::NotAParticipant));
        assert_eq!(sc.get_deal(0), Some(expected));
    }
}

#[test]
fn third_claim_finds_no_deal() {
    let mut sc = FirstScImpl::init();
    assert_eq!(sc.fund(1, 2, 100, 10, 20, 30, 0), Ok(0));
    assert_eq!(sc.claim(0, 2, 15), Ok(50));
    assert_eq!(sc.claim(0, 2, 25), Ok(50));
    assert_eq!(sc.claim(0, 2, 40), Err(EscrowError::DealNotFound));
    assert_eq!(sc.claim(0, 1, 40), Err(EscrowError::DealNotFound));
}

#[test]
fn claim_on_unknown_id_finds_no_deal() {
    let mut sc = FirstScImpl::init();
    assert_eq!(sc.claim(0, 1, 0), Err(EscrowError::DealNotFound));
    assert_eq!(sc.fund(1, 2, 100, 10, 20, 30, 0), Ok(0));
    assert_eq!(sc.claim(7, 2, 15), Err(EscrowError::DealNotFound));
}

#[test]
fn conservation_with_odd_funds() {
    let mut sc = FirstScImpl::init();
    assert_eq!(sc.fund(1, 2, 101, 10, 20, 30, 0), Ok(0));
    assert_eq!(sc.claim(0, 2, 15), Ok(50));
    assert_eq!(sc.get_deal(0).unwrap().funds, 51);
    assert_eq!(sc.claim(0, 2, 25), Ok(51));
    assert_eq!(sc.get_deal(0), None);
}

#[test]
fn conservation_first_tranche_then_reclaim() {
    let mut sc = FirstScImpl::init();
    assert_eq!(sc.fund(1, 2, 101, 10, 20, 30, 0), Ok(0));
    assert_eq!(sc.claim(0, 2, 15), Ok(50));
    assert_eq!(sc.claim(0, 1, 35), Ok(51));
    assert_eq!(sc.get_deal(0), None);
}

#[test]
fn conservation_with_one_unit() {
    let mut sc = FirstScImpl::init();
    assert_eq!(sc.fund(1, 2, 1, 10, 20, 30, 0), Ok(0));
    assert_eq!(sc.claim(0, 2, 15), Ok(0));
    assert_eq!(sc.get_deal(0).unwrap().funds, 1);
    assert_eq!(sc.claim(0, 2, 25), Ok(1));
    assert_eq!(sc.get_deal(0), None);
}

#[test]
fn donor_reclaim_too_early() {
    let mut sc = FirstScImpl::init();
    assert_eq!(sc.fund(1, 2, 100, 10, 20, 30, 0), Ok(0));
    assert_eq!(sc.claim(0, 1, 5), Err(EscrowError::ReclaimTooEarly));
    assert_eq!(sc.claim(0, 1, 30), Err(EscrowError::ReclaimTooEarly));
    assert_eq!(sc.get_deal(0).unwrap().funds, 100);
}

#[test]
fn deadlines_open_only_strictly_after() {
    let mut sc = FirstScImpl::init();
    assert_eq!(sc.fund(1, 2, 100, 10, 20, 30, 0), Ok(0));
    assert_eq!(sc.claim(0, 2, 10), Err(EscrowError::ClaimTooEarly));
    assert_eq!(sc.claim(0, 2, 11), Ok(50));
    assert_eq!(sc.claim(0, 2, 20), Err(EscrowError::ClaimTooEarly));
    assert_eq!(sc.claim(0, 2, 21), Ok(50));
}

#[test]
fn claimer_waiting_past_second_deadline_needs_two_calls() {
    let mut sc = FirstScImpl::init();
    assert_eq!(sc.fund(1, 2, 100, 10, 20, 30, 0), Ok(0));
    assert_eq!(sc.claim(0, 2, 25), Ok(50));
    assert_eq!(sc.get_deal(0).unwrap().first_payday, 0);
    assert_eq!(sc.claim(0, 2, 25), Ok(50));
    assert_eq!(sc.get_deal(0), None);
}

#[test]
fn donor_who_is_also_claimer_waits_as_donor() {
    let mut sc = FirstScImpl::init();
    assert_eq!(sc.fund(7, 7, 100, 10, 20, 30, 0), Ok(0));
    assert_eq!(sc.claim(0, 7, 5), Err(EscrowError::ReclaimTooEarly));
    assert_eq!(sc.claim(0, 7, 15), Ok(50));
    assert_eq!(sc.claim(0, 7, 25), Ok(50));
    assert_eq!(sc.get_deal(0), None);
}

#[test]
fn deal_ids_are_never_reused() {
    let mut sc = FirstScImpl::init();
    assert_eq!(sc.fund(1, 2, 100, 10, 20, 30, 0), Ok(0));
    assert_eq!(sc.claim(0, 1, 35), Ok(100));
    assert_eq!(sc.fund(1, 2, 100, 10, 20, 30, 0), Ok(1));
    assert_eq!(sc.get_deal(0), None);
    assert_eq!(sc.get_deal(1).unwrap().funds, 100);
    assert_eq!(sc.get_deal_id(), 2);
}
