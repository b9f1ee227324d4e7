use vstd::prelude::*;

use crate::{Asset, EuropeanCallOption, OptionError, net_inflow};

verus! {

/// In a well-formed store an option is never both open and purchased, and an
/// uninitialized store holds neither terms nor a buyer.
pub proof fn lemma_phases_exclusive<A>(s: EuropeanCallOption<A>)
    requires
        s.wf(),
    ensures
        !(s.is_open() && s.is_purchased()),
        s.is_uninitialized() ==> s.option is None && s.buyer is None,
{
}

/// Every successful operation moves into or out of the contract exactly the
/// change in what it holds in custody; after an exercise it holds nothing.
pub proof fn lemma_conservation<A>(s: EuropeanCallOption<A>, price: u32, now: u64, asset: Asset)
    requires
        s.wf(),
        s.exercise_step(price, now) is Ok,
    ensures
        ({
            let (t, p) = s.exercise_step(price, now)->Ok_0;
            &&& net_inflow(p.transfers, asset) == t.custody(asset) - s.custody(asset)
            &&& t.custody(asset) == 0
        }),
{
    let (t, p) = s.exercise_step(price, now)->Ok_0;
    reveal_with_fuel(net_inflow, 3);
    assert(p.transfers.drop_last().drop_last() =~= Seq::empty());
}

/// A second purchase after a successful one is refused.
pub proof fn lemma_no_double_purchase<A>(s: EuropeanCallOption<A>, first: A, second: A)
    requires
        s.wf(),
        s.buy_step(first) is Ok,
    ensures
        s.buy_step(first)->Ok_0.0.buy_step(second) == Err::<(EuropeanCallOption<A>, crate::PlanView), _>(
            OptionError::AlreadyPurchased,
        ),
{
}

} // verus!
