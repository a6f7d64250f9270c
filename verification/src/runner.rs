//! Step-by-step execution of a [`Plan`].
//!
//! The unverified shell cannot be trusted to stop at the first failure, so
//! the decision is kept here: the shell asks the runner for the current
//! action, performs it, and reports whether it succeeded. The runner issues
//! actions strictly in plan order and issues nothing further once a failure
//! has been reported.

use vstd::prelude::*;

use crate::actions::Action;
use crate::actions::Plan;
use crate::actions::PlanError;
use crate::actions::PlanModel;

verus! {

/// Executor state for one plan.
pub struct PlanRunner {
    plan: Plan,
    next: usize,
    failed: bool,
    outcomes: Ghost<Seq<bool>>,
}

impl PlanRunner {
    /// The plan being executed.
    pub closed spec fn plan_model(&self) -> PlanModel {
        self.plan.deep_view()
    }

    /// How many actions have been issued and answered.
    pub closed spec fn issued(&self) -> int {
        self.next as int
    }

    /// The reported outcomes, in the order the actions were issued.
    pub closed spec fn outcomes(&self) -> Seq<bool> {
        self.outcomes@
    }

    /// Whether some issued action was reported failed.
    pub closed spec fn has_failed(&self) -> bool {
        self.failed
    }

    /// The runner's invariant: one outcome per issued action, never more
    /// issued than the plan holds, every outcome before the last a
    /// success, and the failure flag set exactly when the last outcome was
    /// a failure.
    pub closed spec fn wf(&self) -> bool {
        &&& self.next as int == self.outcomes@.len()
        &&& self.next as int <= self.plan.deep_view().actions.len()
        &&& (forall|i: int| 0 <= i < self.outcomes@.len() - 1 ==> self.outcomes@[i])
        &&& (self.failed <==> (self.outcomes@.len() > 0 && !self.outcomes@.last()))
    }

    /// Start executing `plan`.
    pub fn new(plan: Plan) -> (r: PlanRunner)
        ensures
            r.wf(),
            r.plan_model() == plan.deep_view(),
            r.issued() == 0,
            r.outcomes() == Seq::<bool>::empty(),
            !r.has_failed(),
    {
        PlanRunner { plan, next: 0, failed: false, outcomes: Ghost(Seq::empty()) }
    }

    /// The next action to perform: `None` once the plan is exhausted or a
    /// failure has been reported.
    pub fn current(&self) -> (r: Option<&Action>)
        requires
            self.wf(),
        ensures
            match r {
                Some(a) => {
                    &&& !self.has_failed()
                    &&& self.issued() < self.plan_model().actions.len()
                    &&& a.deep_view() == self.plan_model().actions[self.issued()]
                },
                None => self.has_failed() || self.issued() == self.plan_model().actions.len(),
            },
    {
        if self.failed {
            None
        } else if self.next < self.plan.actions.len() {
            Some(&self.plan.actions[self.next])
        } else {
            None
        }
    }

    /// Record the outcome of the action `current` returned, moving past
    /// it. After a reported failure nothing further is ever issued.
    pub fn advance(&mut self, ok: bool)
        requires
            old(self).wf(),
            !old(self).has_failed(),
            old(self).issued() < old(self).plan_model().actions.len(),
        ensures
            final(self).wf(),
            final(self).plan_model() == old(self).plan_model(),
            final(self).issued() == old(self).issued() + 1,
            final(self).outcomes() == old(self).outcomes().push(ok),
            final(self).has_failed() == !ok,
    {
        let n = self.plan.actions.len();
        proof {
            assert(self.next < n);
        }
        self.next = self.next + 1;
        self.failed = !ok;
        proof {
            self.outcomes@ = self.outcomes@.push(ok);
        }
    }

    /// Whether a failure has been reported.
    pub fn failed(&self) -> (r: bool)
        ensures
            r == self.has_failed(),
    {
        self.failed
    }

    /// The planning error the plan ends with, if any; it is to be reported
    /// once every action has been issued and has succeeded.
    pub fn abort_error(&self) -> (r: Option<&PlanError>)
        ensures
            match r {
                Some(e) => self.plan_model().abort == Some(e.deep_view()),
                None => self.plan_model().abort is None,
            },
    {
        match &self.plan.abort {
            Some(e) => Some(e),
            None => None,
        }
    }
}

/// Law: execution is fail-fast. A runner only ever answers one outcome per
/// issued action, never issues more actions than the plan holds, and every
/// reported outcome before the last one is a success — so no action is
/// issued after a failed one.
pub proof fn lemma_fail_fast(r: PlanRunner)
    requires
        r.wf(),
    ensures
        r.issued() == r.outcomes().len(),
        r.issued() <= r.plan_model().actions.len(),
        forall|i: int| 0 <= i < r.outcomes().len() - 1 ==> r.outcomes()[i],
        r.has_failed() ==> r.outcomes().len() > 0 && !r.outcomes().last(),
{
}

} // verus!
