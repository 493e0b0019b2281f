//! The rules by which the agency collection answers: which id a document is
//! stored under, and what a save or a removal reports.
use vstd::prelude::*;
use crate::data::access::store::WriteReport;
use crate::domain::agency::agency_error::AgencyError;
use crate::domain::agency::agency_type::{Agency, AgencyView};
use crate::utils::domains_ids::{AgencyID, EntityId};

verus! {

/// An agency about to be stored: it keeps its id, or gets a fresh one.
pub fn assign_new_id(agency: Agency) -> (stored: Agency)
    ensures
        agency@.id is Some ==> stored@ == agency@,
        agency@.id is None ==> stored@.id is Some && stored@ == (AgencyView { id: stored@.id, ..agency@ }),
{
    let mut agency = agency;
    if agency.id.is_none() {
        agency.id = Some(EntityId::new());
    }
    agency
}

/// The id under which an agency is saved; one that was never stored cannot be.
pub fn save_target(agency: &Agency) -> (res: Result<AgencyID, AgencyError>)
    ensures
        match agency.id {
            Some(id) => res matches Ok(target) && target@ == id@,
            None => res matches Err(AgencyError::AgencyNotFound),
        },
{
    match agency.id {
        Some(id) => Ok(id),
        None => Err(AgencyError::AgencyNotFound),
    }
}

/// What saving an agency answers, given what the store reported of the update:
/// the agency, unless no stored document had its id or the update failed.
pub fn save_outcome(agency: Agency, report: WriteReport) -> (res: Result<Agency, AgencyError>)
    ensures
        match report {
            WriteReport::Reached(n) => if n == 0 {
                res matches Err(AgencyError::AgencyNotFound)
            } else {
                res matches Ok(saved) && saved@ == agency@
            },
            WriteReport::Failed => res matches Err(AgencyError::AgencyDocNotUpdated),
        },
{
    match report {
        WriteReport::Reached(n) => if n == 0 {
            Err(AgencyError::AgencyNotFound)
        } else {
            Ok(agency)
        },
        WriteReport::Failed => Err(AgencyError::AgencyDocNotUpdated),
    }
}

/// What removing an agency answers: done when the removal reached a stored
/// document, and not found otherwise, a failed removal included.
pub fn delete_outcome(report: WriteReport) -> (res: Result<(), AgencyError>)
    ensures
        res is Ok <==> (report matches WriteReport::Reached(n) && n > 0),
        res is Err ==> res matches Err(AgencyError::AgencyNotFound),
{
    match report {
        WriteReport::Reached(n) => if n == 0 {
            Err(AgencyError::AgencyNotFound)
        } else {
            Ok(())
        },
        WriteReport::Failed => Err(AgencyError::AgencyNotFound),
    }
}

} // verus!
