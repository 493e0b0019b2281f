//! The rules by which the organization collection answers: which id a document is
//! stored under, and what a save or a removal reports.
use vstd::prelude::*;
use crate::data::access::store::WriteReport;
use crate::domain::organization::organization_error::OrganizationError;
use crate::domain::organization::organization_type::{Organization, OrganizationView};
use crate::utils::domains_ids::{OrganizationID, EntityId};

verus! {

/// An organization about to be stored: it keeps its id, or gets a fresh one.
pub fn assign_new_id(organization: Organization) -> (stored: Organization)
    ensures
        organization@.id is Some ==> stored@ == organization@,
        organization@.id is None ==> stored@.id is Some && stored@ == (OrganizationView { id: stored@.id, ..organization@ }),
{
    let mut organization = organization;
    if organization.id.is_none() {
        organization.id = Some(EntityId::new());
    }
    organization
}

/// The id under which an organization is saved; one that was never stored cannot be.
pub fn save_target(organization: &Organization) -> (res: Result<OrganizationID, OrganizationError>)
    ensures
        match organization.id {
            Some(id) => res matches Ok(target) && target@ == id@,
            None => res matches Err(OrganizationError::OrganizationNotFound),
        },
{
    match organization.id {
        Some(id) => Ok(id),
        None => Err(OrganizationError::OrganizationNotFound),
    }
}

/// What saving an organization answers, given what the store reported of the update:
/// the organization, unless no stored document had its id or the update failed.
pub fn save_outcome(organization: Organization, report: WriteReport) -> (res: Result<Organization, OrganizationError>)
    ensures
        match report {
            WriteReport::Reached(n) => if n == 0 {
                res matches Err(OrganizationError::OrganizationNotFound)
            } else {
                res matches Ok(saved) && saved@ == organization@
            },
            WriteReport::Failed => res matches Err(OrganizationError::OrganizationDocNotUpdated),
        },
{
    match report {
        WriteReport::Reached(n) => if n == 0 {
            Err(OrganizationError::OrganizationNotFound)
        } else {
            Ok(organization)
        },
        WriteReport::Failed => Err(OrganizationError::OrganizationDocNotUpdated),
    }
}

/// What removing an organization answers: done when the removal reached a stored
/// document, and not found otherwise, a failed removal included.
pub fn delete_outcome(report: WriteReport) -> (res: Result<(), OrganizationError>)
    ensures
        res is Ok <==> (report matches WriteReport::Reached(n) && n > 0),
        res is Err ==> res matches Err(OrganizationError::OrganizationNotFound),
{
    match report {
        WriteReport::Reached(n) => if n == 0 {
            Err(OrganizationError::OrganizationNotFound)
        } else {
            Ok(())
        },
        WriteReport::Failed => Err(OrganizationError::OrganizationNotFound),
    }
}

} // verus!
