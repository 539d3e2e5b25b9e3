//! The escrow engine: the `FirstSc` interface and the registry-backed
//! implementation of it.
//!
//! The host that embeds the engine owns the ambient context: it reads the
//! current epoch and the caller's identity and passes them in, it moves the
//! inbound deposit that accompanies `fund`, and it pays out the amount that a
//! successful `claim` returns. The engine itself only decides and records.

use std::collections::HashMap;

use vstd::prelude::*;

use crate::deal::EscrowError;
use crate::deal::Payment;
use crate::deal::check_deadlines;
use crate::deal::claim_outcome;
use crate::deal::claim_post;
use crate::deal::deadlines_ok;
use crate::deal::funded_deal;
use crate::deal::registry_wf;

verus! {

/// The two entry points of the escrow, over an owned deal registry and the
/// next-id counter. Every call takes the caller's identity and the current
/// epoch explicitly; a successful `claim` reports the amount the host must
/// transfer to that caller.
pub trait FirstSc: Sized {
    /// The registry's contents: deal id to stored record.
    spec fn deals(&self) -> Map<u64, Payment>;

    /// The next deal id to assign; counts the successful `fund` calls.
    spec fn deal_counter(&self) -> u64;

    /// An empty escrow: no deals, counter at zero.
    fn init() -> (sc: Self)
        ensures
            sc.deals() == Map::<u64, Payment>::empty(),
            sc.deal_counter() == 0,
            registry_wf(sc.deals(), sc.deal_counter()),
    ;

    /// Records a new deal funded by `caller` for claimer `to` with `payment`
    /// attached, provided the three deadlines are strictly ordered and lie in
    /// the future of `epoch`. Returns the new deal's id, which is the prior
    /// counter value; with invalid deadlines nothing is recorded and the call
    /// fails with `InvalidDeadlines`.
    fn fund(
        &mut self,
        caller: u64,
        to: u64,
        payment: u64,
        first_deadline: u64,
        second_deadline: u64,
        reclaim_deadline: u64,
        epoch: u64,
    ) -> (res: Result<u64, EscrowError>)
        requires
            registry_wf(old(self).deals(), old(self).deal_counter()),
            old(self).deal_counter() < u64::MAX,
            payment > 0,
        ensures
            registry_wf(final(self).deals(), final(self).deal_counter()),
            deadlines_ok(first_deadline, second_deadline, reclaim_deadline, epoch) ==> {
                &&& res == Ok::<u64, EscrowError>(old(self).deal_counter())
                &&& final(self).deals() == old(self).deals().insert(
                    old(self).deal_counter(),
                    funded_deal(caller, to, payment, first_deadline, second_deadline, reclaim_deadline),
                )
                &&& final(self).deals().len() == old(self).deals().len() + 1
                &&& final(self).deal_counter() == old(self).deal_counter() + 1
            },
            !deadlines_ok(first_deadline, second_deadline, reclaim_deadline, epoch) ==> {
                &&& res == Err::<u64, EscrowError>(EscrowError::InvalidDeadlines)
                &&& final(self).deals() == old(self).deals()
                &&& final(self).deal_counter() == old(self).deal_counter()
            },
    ;

    /// Pays out of deal `deal_id` to `caller` at `epoch`, or reports why it
    /// cannot: exactly the outcome and registry change that `claim_outcome`
    /// and `claim_post` state, branch by branch. A successful result is the
    /// amount the host must transfer to the caller.
    fn claim(&mut self, deal_id: u64, caller: u64, epoch: u64) -> (res: Result<u64, EscrowError>)
        requires
            registry_wf(old(self).deals(), old(self).deal_counter()),
        ensures
            registry_wf(final(self).deals(), final(self).deal_counter()),
            final(self).deal_counter() == old(self).deal_counter(),
            res == claim_outcome(old(self).deals(), deal_id, caller, epoch),
            final(self).deals() == claim_post(old(self).deals(), deal_id, caller, epoch),
    ;

    /// The next-assignable deal id (the current counter value).
    fn get_deal_id(&self) -> (id: u64)
        ensures
            id == self.deal_counter(),
    ;

    /// The stored record of deal `deal_id`, if the registry holds one.
    fn get_deal(&self, deal_id: u64) -> (r: Option<Payment>)
        ensures
            self.deals().contains_key(deal_id) ==> r == Some(self.deals()[deal_id]),
            !self.deals().contains_key(deal_id) ==> r == None::<Payment>,
    ;
}

/// The escrow engine: the deal registry and the next-id counter, owned
/// directly. The host keeps one value of this across calls.
pub struct FirstScImpl {
    deals: HashMap<u64, Payment>,
    deal_id: u64,
}

impl FirstSc for FirstScImpl {
    closed spec fn deals(&self) -> Map<u64, Payment> {
        self.deals@
    }

    closed spec fn deal_counter(&self) -> u64 {
        self.deal_id
    }

    fn init() -> (sc: Self) {
        FirstScImpl { deals: HashMap::new(), deal_id: 0 }
    }

    fn fund(
        &mut self,
        caller: u64,
        to: u64,
        payment: u64,
        first_deadline: u64,
        second_deadline: u64,
        reclaim_deadline: u64,
        epoch: u64,
    ) -> (res: Result<u64, EscrowError>) {
        if !check_deadlines(first_deadline, second_deadline, reclaim_deadline, epoch) {
            return Err(EscrowError::InvalidDeadlines);
        }
        let deal = Payment {
            donor: caller,
            claimer: to,
            first_payday: first_deadline,
            second_payday: second_deadline,
            reclaim_payday: reclaim_deadline,
            funds: payment,
        };
        let id = self.deal_id;
        self.deals.insert(id, deal);
        self.deal_id = id + 1;
        Ok(id)
    }

    fn claim(&mut self, deal_id: u64, caller: u64, epoch: u64) -> (res: Result<u64, EscrowError>) {
        let deal = match self.deals.get(&deal_id) {
            Some(d) => *d,
            None => {
                return Err(EscrowError::DealNotFound);
            },
        };
        if caller == deal.claimer && deal.first_payday != 0 && epoch > deal.first_payday {
            let payout = deal.funds / 2;
            let updated = Payment {
                donor: deal.donor,
                claimer: deal.claimer,
                first_payday: 0,
                second_payday: deal.second_payday,
                reclaim_payday: deal.reclaim_payday,
                funds: deal.funds - payout,
            };
            self.deals.insert(deal_id, updated);
            Ok(payout)
        } else if caller == deal.claimer && epoch > deal.second_payday {
            self.deals.remove(&deal_id);
            Ok(deal.funds)
        } else if caller == deal.donor && epoch > deal.reclaim_payday {
            self.deals.remove(&deal_id);
            Ok(deal.funds)
        } else if caller == deal.donor {
            Err(EscrowError::ReclaimTooEarly)
        } else if caller == deal.claimer {
            Err(EscrowError::ClaimTooEarly)
        } else {
            Err(EscrowError::NotAParticipant)
        }
    }

    fn get_deal_id(&self) -> (id: u64) {
        self.deal_id
    }

    fn get_deal(&self, deal_id: u64) -> (r: Option<Payment>) {
        match self.deals.get(&deal_id) {
            Some(d) => Some(*d),
            None => None,
        }
    }
}

} // verus!
