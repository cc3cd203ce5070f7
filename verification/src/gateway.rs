//! What the gateway as a whole decides: how the two loops of a service name
//! mirror each other, and what the outcomes of all loops amount to.

use crate::bridge::Direction;
use crate::side::{Failure, FailureView, Outcome, OutcomeView, Side, SideView};
use vstd::prelude::*;

verus! {

/// The outcomes of some loops as mathematical values, in their order.
pub open spec fn outcome_views(outcomes: Seq<Outcome>) -> Seq<OutcomeView> {
    outcomes.map_values(|outcome: Outcome| outcome@)
}

/// Some failures as mathematical values, in their order.
pub open spec fn failure_views(failures: Seq<Failure>) -> Seq<FailureView> {
    failures.map_values(|failure: Failure| failure@)
}

/// The failures among `outcomes`, in their order. A loop that finished or was
/// cancelled contributes nothing.
pub open spec fn failures_of(outcomes: Seq<OutcomeView>) -> Seq<FailureView>
    decreases outcomes.len(),
{
    if outcomes.len() == 0 {
        Seq::empty()
    } else {
        let earlier = failures_of(outcomes.drop_last());
        match outcomes.last() {
            OutcomeView::Failed(failure) => earlier.push(failure),
            _ => earlier,
        }
    }
}

/// The status with which the process exits: zero without failures, one with
/// any.
pub open spec fn status_of(failures: Seq<FailureView>) -> u8 {
    if failures.len() == 0 {
        0
    } else {
        1
    }
}

/// The two loops of one service name. The first relays from the upstream bus
/// to the downstream bus and sends under the gateway's downstream address; the
/// second relays the other way and sends under its upstream address.
pub fn mirrored_sides(upstream_address: Option<String>, downstream_address: Option<String>) -> (sides:
    (Side, Side))
    ensures
        sides.0@ == (SideView {
            direction: Direction::UpToDown,
            own_address: downstream_address.deep_view(),
            outcome: None,
        }),
        sides.1@ == (SideView {
            direction: Direction::DownToUp,
            own_address: upstream_address.deep_view(),
            outcome: None,
        }),
{
    (
        Side::new(Direction::UpToDown, downstream_address),
        Side::new(Direction::DownToUp, upstream_address),
    )
}

/// A copy of a failure.
pub fn clone_failure(failure: &Failure) -> (copy: Failure)
    ensures
        copy@ == failure@,
{
    Failure { stage: failure.stage, detail: failure.detail.clone() }
}

/// The failures among the outcomes of all loops, in the order of the loops.
pub fn collect_failures(outcomes: &Vec<Outcome>) -> (failures: Vec<Failure>)
    ensures
        failure_views(failures@) == failures_of(outcome_views(outcomes@)),
{
    let mut failures: Vec<Failure> = Vec::new();
    let mut index: usize = 0;
    while index < outcomes.len()
        invariant
            index <= outcomes.len(),
            failure_views(failures@) == failures_of(outcome_views(outcomes@).take(index as int)),
        decreases outcomes.len() - index,
    {
        let ghost views = outcome_views(outcomes@);
        let ghost before = failure_views(failures@);
        proof {
            assert(views.take(index + 1).drop_last() =~= views.take(index as int));
            assert(views.take(index + 1).last() == outcomes@[index as int]@);
        }
        match &outcomes[index] {
            Outcome::Failed(failure) => {
                let copy = clone_failure(failure);
                failures.push(copy);
                proof {
                    assert(failure_views(failures@) =~= before.push(failure@));
                }
            },
            _ => {},
        }
        index += 1;
    }
    proof {
        assert(outcome_views(outcomes@).take(index as int) =~= outcome_views(outcomes@));
    }
    failures
}

/// The result of the whole run: success if no loop failed, and else every
/// failure, in the order of the loops.
pub fn aggregate(outcomes: &Vec<Outcome>) -> (result: Result<(), Vec<Failure>>)
    ensures
        match result {
            Ok(_) => failures_of(outcome_views(outcomes@)).len() == 0,
            Err(failures) => failures.len() > 0 && failure_views(failures@) == failures_of(
                outcome_views(outcomes@),
            ),
        },
{
    let failures = collect_failures(outcomes);
    if failures.len() == 0 {
        Ok(())
    } else {
        Err(failures)
    }
}

/// The status with which the process exits after `result`.
pub fn exit_status(result: &Result<(), Vec<Failure>>) -> (status: u8)
    ensures
        status == match result {
            Ok(_) => 0u8,
            Err(failures) => status_of(failure_views(failures@)),
        },
{
    match result {
        Ok(_) => 0,
        Err(failures) => if failures.len() == 0 {
            0
        } else {
            1
        },
    }
}

} // verus!
