use vstd::prelude::*;

use crate::arith::division;
use crate::arith::native_result;
use crate::arith::trunc_div;
use crate::errors::message_of;
use crate::errors::Error;

verus! {

/// What the host observes of an asynchronous computation.
#[derive(Debug, PartialEq, Eq)]
pub enum Settlement {
    Pending,
    Resolved(i32),
    /// Rejected with the message of the native failure.
    Rejected(String),
}

/// The mathematical form of a settlement.
pub enum SettlementView {
    Pending,
    Resolved(i32),
    Rejected(Seq<char>),
}

impl View for Settlement {
    type V = SettlementView;

    open spec fn view(&self) -> SettlementView {
        match self {
            Settlement::Pending => SettlementView::Pending,
            Settlement::Resolved(v) => SettlementView::Resolved(*v),
            Settlement::Rejected(m) => SettlementView::Rejected(m@),
        }
    }
}

/// The settlement that a finished computation with this outcome brings.
pub open spec fn settled_by(outcome: Result<i32, Error>) -> SettlementView {
    match outcome {
        Ok(v) => SettlementView::Resolved(v),
        Err(e) => SettlementView::Rejected(message_of(e)),
    }
}

/// One resolution attempt: only the first one, on a pending state, has effect.
pub open spec fn settle_step(s: SettlementView, outcome: Result<i32, Error>) -> SettlementView {
    if s is Pending {
        settled_by(outcome)
    } else {
        s
    }
}

/// The state after each of `outcomes` is offered, in order.
pub open spec fn settle_all(s: SettlementView, outcomes: Seq<Result<i32, Error>>) -> SettlementView
    decreases outcomes.len(),
{
    if outcomes.len() == 0 {
        s
    } else {
        settle_step(settle_all(s, outcomes.drop_last()), outcomes.last())
    }
}

/// A single-resolution handle on a native asynchronous computation.
pub struct PendingComputation {
    state: Settlement,
}

impl View for PendingComputation {
    type V = SettlementView;

    closed spec fn view(&self) -> SettlementView {
        self.state@
    }
}

impl PendingComputation {
    /// A handle whose computation has not finished.
    pub fn new() -> (r: PendingComputation)
        ensures
            r@ is Pending,
    {
        PendingComputation { state: Settlement::Pending }
    }

    /// Whether no outcome has settled the handle yet.
    pub fn is_pending(&self) -> (r: bool)
        ensures
            r == (self@ is Pending),
    {
        match self.state {
            Settlement::Pending => true,
            _ => false,
        }
    }

    /// Offers the computation's outcome. Only the first offer settles the
    /// handle; it returns whether this one did.
    pub fn settle(&mut self, outcome: Result<i32, Error>) -> (took: bool)
        ensures
            took == (old(self)@ is Pending),
            final(self)@ == settle_step(old(self)@, outcome),
    {
        if self.is_pending() {
            self.state = match outcome {
                Ok(v) => Settlement::Resolved(v),
                Err(e) => Settlement::Rejected(e.message()),
            };
            true
        } else {
            false
        }
    }

    /// What the host sees now.
    pub fn observe(&self) -> (r: Settlement)
        ensures
            r@ == self@,
    {
        match &self.state {
            Settlement::Pending => Settlement::Pending,
            Settlement::Resolved(v) => Settlement::Resolved(*v),
            Settlement::Rejected(m) => Settlement::Rejected(m.clone()),
        }
    }
}

/// Runs a finished computation's outcome through the bridge: the settlement
/// of a fresh handle that receives it.
pub fn settle_outcome(outcome: Result<i32, Error>) -> (r: Settlement)
    ensures
        r@ == settled_by(outcome),
{
    let mut p = PendingComputation::new();
    p.settle(outcome);
    p.observe()
}

/// Once a handle is resolved or rejected, no later resolution attempt changes
/// what the host observes.
pub proof fn law_settlement_is_final(s: SettlementView, outcomes: Seq<Result<i32, Error>>)
    requires
        !(s is Pending),
    ensures
        settle_all(s, outcomes) == s,
    decreases outcomes.len(),
{
    if outcomes.len() > 0 {
        law_settlement_is_final(s, outcomes.drop_last());
    }
}

/// What the host sees of a synchronous call: the value returned, or the
/// message of the exception thrown.
pub open spec fn thrown_or_returned(r: Result<i32, Error>) -> Result<i32, Seq<char>> {
    match r {
        Ok(v) => Ok(v),
        Err(e) => Err(message_of(e)),
    }
}

/// Dividing `a` by `b` gives the host the same quotient on the synchronous and
/// the asynchronous path when `b` is not zero, and the same failure message
/// on both when it is.
pub proof fn law_divide_paths_agree(a: i32, b: i32)
    ensures
        b != 0 ==> thrown_or_returned(native_result(division(a, b))) == Ok::<i32, Seq<char>>(
            trunc_div(a as int, b as int) as i32,
        ) && settled_by(native_result(division(a, b))) == SettlementView::Resolved(
            trunc_div(a as int, b as int) as i32,
        ),
        b == 0 ==> thrown_or_returned(native_result(division(a, b))) == Err::<i32, Seq<char>>(
            "Division by zero"@,
        ) && settled_by(native_result(division(a, b))) == SettlementView::Rejected(
            "Division by zero"@,
        ),
{
}

} // verus!
