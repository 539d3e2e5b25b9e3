//! Laws of the claim state machine that relate several calls, proved over the
//! specification-level transition functions that `FirstSc::claim`'s contract
//! is stated with.

use vstd::prelude::*;

use crate::deal::EscrowError;
use crate::deal::Payment;
use crate::deal::after_first_tranche;
use crate::deal::claim_outcome;
use crate::deal::claim_post;
use crate::deal::first_tranche_amount;
use crate::deal::first_tranche_open;
use crate::deal::reclaim_open;
use crate::deal::second_tranche_open;

verus! {

/// Law: once both tranches have been paid the deal is deleted, so a third
/// claim on its id — by anyone, at any epoch — fails with `DealNotFound`.
pub proof fn lemma_third_claim_fails(
    deals: Map<u64, Payment>,
    deal_id: u64,
    claimer: u64,
    e1: u64,
    e2: u64,
    later_caller: u64,
    e3: u64,
)
    requires
        deals.contains_key(deal_id),
        claimer == deals[deal_id].claimer,
        first_tranche_open(deals[deal_id], e1),
        second_tranche_open(deals[deal_id], e2),
    ensures
        claim_outcome(deals, deal_id, claimer, e1) == Ok::<u64, EscrowError>(
            first_tranche_amount(deals[deal_id]),
        ),
        claim_outcome(claim_post(deals, deal_id, claimer, e1), deal_id, claimer, e2)
            == Ok::<u64, EscrowError>(after_first_tranche(deals[deal_id]).funds),
        claim_outcome(
            claim_post(claim_post(deals, deal_id, claimer, e1), deal_id, claimer, e2),
            deal_id,
            later_caller,
            e3,
        ) == Err::<u64, EscrowError>(EscrowError::DealNotFound),
{
}

/// Law (conservation, claimed in two calls): the first tranche pays half of
/// the funds rounded down, the second pays exactly what is left, and the two
/// payouts sum to the full funded amount — the rounding remainder is kept for
/// the second tranche, so no unit is lost or gained.
pub proof fn lemma_conservation_two_tranches(
    deals: Map<u64, Payment>,
    deal_id: u64,
    claimer: u64,
    e1: u64,
    e2: u64,
)
    requires
        deals.contains_key(deal_id),
        claimer == deals[deal_id].claimer,
        first_tranche_open(deals[deal_id], e1),
        second_tranche_open(deals[deal_id], e2),
    ensures
        claim_outcome(deals, deal_id, claimer, e1) == Ok::<u64, EscrowError>(
            first_tranche_amount(deals[deal_id]),
        ),
        claim_outcome(claim_post(deals, deal_id, claimer, e1), deal_id, claimer, e2)
            == Ok::<u64, EscrowError>(after_first_tranche(deals[deal_id]).funds),
        first_tranche_amount(deals[deal_id]) + after_first_tranche(deals[deal_id]).funds
            == deals[deal_id].funds,
{
}

/// Law (conservation, first tranche then reclaim): after the claimer has taken
/// the first tranche, a donor reclaim pays exactly the remainder, so the two
/// payouts again sum to the full funded amount, and the deal is deleted.
pub proof fn lemma_conservation_tranche_then_reclaim(
    deals: Map<u64, Payment>,
    deal_id: u64,
    claimer: u64,
    e1: u64,
    donor: u64,
    e2: u64,
)
    requires
        deals.contains_key(deal_id),
        claimer == deals[deal_id].claimer,
        first_tranche_open(deals[deal_id], e1),
        donor == deals[deal_id].donor,
        donor != deals[deal_id].claimer,
        reclaim_open(deals[deal_id], e2),
    ensures
        claim_outcome(deals, deal_id, claimer, e1) == Ok::<u64, EscrowError>(
            first_tranche_amount(deals[deal_id]),
        ),
        claim_outcome(claim_post(deals, deal_id, claimer, e1), deal_id, donor, e2)
            == Ok::<u64, EscrowError>(after_first_tranche(deals[deal_id]).funds),
        first_tranche_amount(deals[deal_id]) + after_first_tranche(deals[deal_id]).funds
            == deals[deal_id].funds,
        !claim_post(
            claim_post(deals, deal_id, claimer, e1),
            deal_id,
            donor,
            e2,
        ).contains_key(deal_id),
{
}

/// Law (conservation, claimed in one call): a donor reclaim on an untouched
/// deal pays out the whole funded amount in one transfer and deletes the deal.
pub proof fn lemma_reclaim_pays_all(deals: Map<u64, Payment>, deal_id: u64, donor: u64, epoch: u64)
    requires
        deals.contains_key(deal_id),
        donor == deals[deal_id].donor,
        donor != deals[deal_id].claimer,
        reclaim_open(deals[deal_id], epoch),
    ensures
        claim_outcome(deals, deal_id, donor, epoch) == Ok::<u64, EscrowError>(
            deals[deal_id].funds,
        ),
        claim_post(deals, deal_id, donor, epoch) == deals.remove(deal_id),
{
}

} // verus!
