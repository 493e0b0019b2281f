//! The rules by which the plan collection answers: which id a document is
//! stored under, and what a save or a removal reports.
use vstd::prelude::*;
use crate::data::access::store::WriteReport;
use crate::domain::plans::plan_error::PlanError;
use crate::domain::plans::plan_type::{Plan, PlanView};
use crate::utils::domains_ids::{PlanID, EntityId};

verus! {

/// A plan about to be stored: it keeps its id, or gets a fresh one.
pub fn assign_new_id(plan: Plan) -> (stored: Plan)
    ensures
        plan@.id is Some ==> stored@ == plan@,
        plan@.id is None ==> stored@.id is Some && stored@ == (PlanView { id: stored@.id, ..plan@ }),
{
    let mut plan = plan;
    if plan.id.is_none() {
        plan.id = Some(EntityId::new());
    }
    plan
}

/// The id under which a plan is saved; one that was never stored cannot be.
pub fn save_target(plan: &Plan) -> (res: Result<PlanID, PlanError>)
    ensures
        match plan.id {
            Some(id) => res matches Ok(target) && target@ == id@,
            None => res matches Err(PlanError::PlanNotFound),
        },
{
    match plan.id {
        Some(id) => Ok(id),
        None => Err(PlanError::PlanNotFound),
    }
}

/// What saving a plan answers, given what the store reported of the update:
/// the plan, unless no stored document had its id or the update failed.
pub fn save_outcome(plan: Plan, report: WriteReport) -> (res: Result<Plan, PlanError>)
    ensures
        match report {
            WriteReport::Reached(n) => if n == 0 {
                res matches Err(PlanError::PlanNotFound)
            } else {
                res matches Ok(saved) && saved@ == plan@
            },
            WriteReport::Failed => res matches Err(PlanError::PlanDocNotUpdated),
        },
{
    match report {
        WriteReport::Reached(n) => if n == 0 {
            Err(PlanError::PlanNotFound)
        } else {
            Ok(plan)
        },
        WriteReport::Failed => Err(PlanError::PlanDocNotUpdated),
    }
}

/// What removing a plan answers: done when the removal reached a stored
/// document, and not found otherwise, a failed removal included.
pub fn delete_outcome(report: WriteReport) -> (res: Result<(), PlanError>)
    ensures
        res is Ok <==> (report matches WriteReport::Reached(n) && n > 0),
        res is Err ==> res matches Err(PlanError::PlanNotFound),
{
    match report {
        WriteReport::Reached(n) => if n == 0 {
            Err(PlanError::PlanNotFound)
        } else {
            Ok(())
        },
        WriteReport::Failed => Err(PlanError::PlanNotFound),
    }
}

} // verus!
