//! The escrow data model: the `Payment` record, the error kinds, and the
//! specification-level transition functions that the executable entry points
//! are proved against.
//!
//! Identities and amounts are plain `u64` values: the host that embeds the
//! escrow maps its own account identifiers and balances onto them.

use vstd::prelude::*;

verus! {

/// One escrow record between a donor and a claimer.
///
/// `first_payday` doubles as the "first tranche already claimed" flag: it is
/// strictly positive while the first tranche is still owed (creation demands
/// `first_payday > epoch >= 0`) and is set to `0` once that tranche is paid.
#[derive(Clone, Copy, PartialEq, Eq, Structural, Debug)]
pub struct Payment {
    /// Identity that funded the deal; immutable after creation.
    pub donor: u64,
    /// Identity entitled to withdraw the two tranches; immutable.
    pub claimer: u64,
    /// Epoch after which the first tranche opens; `0` once it has been paid.
    pub first_payday: u64,
    /// Epoch after which the remainder opens to the claimer.
    pub second_payday: u64,
    /// Epoch after which the donor may reclaim what is left.
    pub reclaim_payday: u64,
    /// Remaining escrowed amount; positive for every stored deal.
    pub funds: u64,
}

/// Why a call was rejected. A rejected call leaves all state unchanged.
#[derive(Clone, Copy, PartialEq, Eq, Structural, Debug)]
pub enum EscrowError {
    /// The deadlines handed to `fund` are not strictly ordered and in the future.
    InvalidDeadlines,
    /// The deal id is not in the registry: never created, or already settled.
    DealNotFound,
    /// The claimer called before the open tranche's deadline had passed.
    ClaimTooEarly,
    /// The donor called at or before the reclaim deadline.
    ReclaimTooEarly,
    /// The caller is neither the donor nor the claimer of the deal.
    NotAParticipant,
}

/// The ordering that `fund` demands of its three deadlines at epoch `epoch`:
/// strictly increasing, and the first strictly in the future.
pub open spec fn deadlines_ok(first: u64, second: u64, reclaim: u64, epoch: u64) -> bool {
    &&& first < second
    &&& reclaim > first
    &&& reclaim > second
    &&& first > epoch
}

/// The deadline validation that `fund` applies before recording a deal.
pub fn check_deadlines(first: u64, second: u64, reclaim: u64, epoch: u64) -> (ok: bool)
    ensures
        ok == deadlines_ok(first, second, reclaim, epoch),
{
    first < second && reclaim > first && reclaim > second && first > epoch
}

/// The record that a successful `fund` call stores.
pub open spec fn funded_deal(
    donor: u64,
    claimer: u64,
    payment: u64,
    first: u64,
    second: u64,
    reclaim: u64,
) -> Payment {
    Payment {
        donor,
        claimer,
        first_payday: first,
        second_payday: second,
        reclaim_payday: reclaim,
        funds: payment,
    }
}

/// What holds of every deal the registry stores: funds are still owed, the
/// later deadlines are ordered, and `first_payday` is either the paid-flag `0`
/// or still below `second_payday` as creation enforced.
pub open spec fn deal_valid(d: Payment) -> bool {
    &&& d.funds > 0
    &&& d.second_payday < d.reclaim_payday
    &&& d.first_payday == 0 || d.first_payday < d.second_payday
}

/// The registry invariant: finitely many deals, every stored id was assigned
/// by the counter (so the next id is fresh), and every stored deal is valid.
pub open spec fn registry_wf(deals: Map<u64, Payment>, counter: u64) -> bool {
    &&& deals.dom().finite()
    &&& forall|id: u64| #[trigger] deals.dom().contains(id) ==> id < counter && deal_valid(deals[id])
}

/// The first tranche is open: not yet paid, and its deadline has passed.
pub open spec fn first_tranche_open(d: Payment, epoch: u64) -> bool {
    d.first_payday != 0 && epoch > d.first_payday
}

/// The second tranche is open to the claimer.
pub open spec fn second_tranche_open(d: Payment, epoch: u64) -> bool {
    epoch > d.second_payday
}

/// The donor's reclaim window is open.
pub open spec fn reclaim_open(d: Payment, epoch: u64) -> bool {
    epoch > d.reclaim_payday
}

/// What the first tranche pays: half of the remaining funds, rounded down.
/// The rounding remainder stays in the deal for the second tranche.
pub open spec fn first_tranche_amount(d: Payment) -> u64 {
    (d.funds / 2) as u64
}

/// The deal as the registry stores it after the first tranche is paid:
/// `first_payday` becomes the paid-flag `0` and the payout leaves the funds.
pub open spec fn after_first_tranche(d: Payment) -> Payment {
    Payment {
        first_payday: 0,
        funds: (d.funds - d.funds / 2) as u64,
        ..d
    }
}

/// What `claim(deal_id)` by `caller` at `epoch` pays or reports, over the
/// registry's map. The branches stand in their priority order: the two
/// claimer tranches, then the donor's reclaim and its too-early error, then
/// the stranger and the waiting claimer.
pub open spec fn claim_outcome(
    deals: Map<u64, Payment>,
    deal_id: u64,
    caller: u64,
    epoch: u64,
) -> Result<u64, EscrowError> {
    if !deals.contains_key(deal_id) {
        Err(EscrowError::DealNotFound)
    } else {
        let d = deals[deal_id];
        if caller == d.claimer && first_tranche_open(d, epoch) {
            Ok(first_tranche_amount(d))
        } else if caller == d.claimer && second_tranche_open(d, epoch) {
            Ok(d.funds)
        } else if caller == d.donor && reclaim_open(d, epoch) {
            Ok(d.funds)
        } else if caller == d.donor {
            Err(EscrowError::ReclaimTooEarly)
        } else if caller == d.claimer {
            Err(EscrowError::ClaimTooEarly)
        } else {
            Err(EscrowError::NotAParticipant)
        }
    }
}

/// The registry's map after the same call: the first tranche rewrites the
/// deal, a full payout (second tranche or reclaim) deletes it, and every
/// failing branch leaves the map unchanged.
pub open spec fn claim_post(
    deals: Map<u64, Payment>,
    deal_id: u64,
    caller: u64,
    epoch: u64,
) -> Map<u64, Payment> {
    if !deals.contains_key(deal_id) {
        deals
    } else {
        let d = deals[deal_id];
        if caller == d.claimer && first_tranche_open(d, epoch) {
            deals.insert(deal_id, after_first_tranche(d))
        } else if caller == d.claimer && second_tranche_open(d, epoch) {
            deals.remove(deal_id)
        } else if caller == d.donor && reclaim_open(d, epoch) {
            deals.remove(deal_id)
        } else {
            deals
        }
    }
}

} // verus!
