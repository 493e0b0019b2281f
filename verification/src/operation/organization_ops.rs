//! The decisions of the organization operations.
use vstd::prelude::*;
use crate::commands::organization_command::{OrganizationCommand, OrganizationState};
use crate::domain::organization::organization_error::{OrganizationError, OrganizationErrorView};
use crate::domain::organization::organization_type::{Organization, OrganizationView};
use crate::domain::organization::OrganizationEntity;
use crate::domain::tenant::tenant_type::TenantState;
use crate::handlers::messages::EntityType;
use crate::utils::domains_ids::hex_encode;
use crate::operation::tenant_ops::{state_cascade, state_cascade_spec, StateCascade, StateCascadeView};

verus! {

/// The state that an organization's tenants take when the organization takes a state.
pub open spec fn tenant_state_of_organization(state: OrganizationState) -> TenantState {
    match state {
        OrganizationState::Active => TenantState::Active,
        OrganizationState::Inactive => TenantState::Inactive,
    }
}

/// The state that an organization's tenants take when the organization takes a state.
pub fn tenant_state_for_organization(state: OrganizationState) -> (tenant_state: TenantState)
    ensures
        tenant_state == tenant_state_of_organization(state),
        state == OrganizationState::Active ==> tenant_state == TenantState::Active,
        state == OrganizationState::Inactive ==> tenant_state == TenantState::Inactive,
{
    match state {
        OrganizationState::Active => TenantState::Active,
        OrganizationState::Inactive => TenantState::Inactive,
    }
}

/// The outcome of a command on an organization: refused, applied, or applied with a
/// new state to announce and pass on to its tenants.
pub open spec fn organization_command_outcome(organization: OrganizationView, command: OrganizationCommand) -> Result<Option<StateCascadeView>, OrganizationErrorView> {
    match command {
        OrganizationCommand::UpdateName { name } => if name@.len() == 0 {
            Err(OrganizationErrorView::EmptyName)
        } else {
            Ok(None)
        },
        OrganizationCommand::UpdateState { state } => Ok(
            if organization.state != state {
                Some(state_cascade_spec(EntityType::Organization, organization.id->0, tenant_state_of_organization(state)))
            } else {
                None
            },
        ),
        OrganizationCommand::UpdatePlan { .. } => Ok(None),
    }
}

/// The organization after a command that is applied.
pub open spec fn organization_command_effect(organization: OrganizationView, command: OrganizationCommand) -> OrganizationView {
    match command {
        OrganizationCommand::UpdateName { name } => OrganizationView { name: name@, ..organization },
        OrganizationCommand::UpdateState { state } => OrganizationView { state, ..organization },
        OrganizationCommand::UpdatePlan { plan } => OrganizationView { plan: plan@, ..organization },
    }
}

pub open spec fn organization_outcome_view(res: Result<Option<StateCascade>, OrganizationError>) -> Result<Option<StateCascadeView>, OrganizationErrorView> {
    match res {
        Ok(Some(c)) => Ok(Some(c@)),
        Ok(None) => Ok(None),
        Err(e) => Err(e@),
    }
}

/// Applies a command to an organization (see `organization_command_outcome`); the organization
/// changes only when the command is applied.
pub fn apply_organization_command(entity: &mut OrganizationEntity, command: &OrganizationCommand) -> (res: Result<Option<StateCascade>, OrganizationError>)
    requires
        command matches OrganizationCommand::UpdateState { state } && state != old(entity).props_view().state
            ==> old(entity).props_view().id is Some,
    ensures
        organization_outcome_view(res) == organization_command_outcome(old(entity).props_view(), *command),
        res is Ok ==> final(entity).props_view() == organization_command_effect(old(entity).props_view(), *command),
        res is Err ==> final(entity).props_view() == old(entity).props_view(),
{
    match command {
        OrganizationCommand::UpdateName { name } => match entity.update_name(name.clone()) {
            Ok(()) => Ok(None),
            Err(e) => Err(e),
        },
        OrganizationCommand::UpdatePlan { plan } => match entity.update_plan(*plan) {
            Ok(()) => Ok(None),
            Err(e) => Err(e),
        },
        OrganizationCommand::UpdateState { state } => {
            let old_state = entity.get_props().state;
            match entity.update_state(*state) {
                Ok(()) => {},
                Err(e) => return Err(e),
            }
            if old_state != *state {
                let id = entity.get_props().id.unwrap();
                Ok(Some(state_cascade(EntityType::Organization, &id, tenant_state_for_organization(*state))))
            } else {
                Ok(None)
            }
        },
    }
}

/// Whether a stored organization may be deleted: only an inactive one may.
pub fn organization_deletion_check(organization: &Organization) -> (res: Result<(), OrganizationError>)
    ensures
        res is Ok <==> organization.state == OrganizationState::Inactive,
        res matches Err(e) ==> e@ == OrganizationErrorView::OrganizationMustBeInactiveToDelete,
{
    if organization.state != OrganizationState::Inactive {
        return Err(OrganizationError::OrganizationMustBeInactiveToDelete);
    }
    Ok(())
}

/// A new state of an organization is announced and passed on to its tenants as
/// the same state: an active organization makes its tenants active, an inactive one
/// makes them inactive; the event names the organization by the hex of its id. Taking
/// the state it already has announces nothing.
pub proof fn lemma_organization_state_passed_on(current: OrganizationView, state: OrganizationState)
    ensures
        current.state == state ==> organization_command_outcome(current, OrganizationCommand::UpdateState { state }) == Ok::<
            Option<StateCascadeView>,
            OrganizationErrorView,
        >(None),
        current.state != state ==> (organization_command_outcome(current, OrganizationCommand::UpdateState { state }) matches Ok(Some(c)) && {
            &&& state == OrganizationState::Active ==> c.tenant_state == TenantState::Active
            &&& state == OrganizationState::Inactive ==> c.tenant_state == TenantState::Inactive
            &&& c.event.state == c.tenant_state
            &&& c.event.entity_type == EntityType::Organization
            &&& c.event.entity_id == hex_encode(current.id->0)
            &&& c.entity_id == current.id->0
        }),
{
}

} // verus!
