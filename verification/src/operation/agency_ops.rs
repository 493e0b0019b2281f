//! The decisions of the agency operations.
use vstd::prelude::*;
use crate::commands::agency_command::{AgencyCommand, AgencyState};
use crate::domain::agency::agency_error::{AgencyError, AgencyErrorView};
use crate::domain::agency::agency_type::{Agency, AgencyView};
use crate::domain::agency::{with_user, without_user, AgencyEntity};
use crate::domain::tenant::tenant_type::TenantState;
use crate::handlers::messages::EntityType;
use crate::utils::domains_ids::hex_encode;
use crate::operation::tenant_ops::{state_cascade, state_cascade_spec, StateCascade, StateCascadeView};

verus! {

/// The state that an agency's tenants take when the agency takes a state.
pub open spec fn tenant_state_of_agency(state: AgencyState) -> TenantState {
    match state {
        AgencyState::Active => TenantState::Active,
        AgencyState::Inactive => TenantState::Inactive,
    }
}

/// The state that an agency's tenants take when the agency takes a state.
pub fn tenant_state_for_agency(state: AgencyState) -> (tenant_state: TenantState)
    ensures
        tenant_state == tenant_state_of_agency(state),
        state == AgencyState::Active ==> tenant_state == TenantState::Active,
        state == AgencyState::Inactive ==> tenant_state == TenantState::Inactive,
{
    match state {
        AgencyState::Active => TenantState::Active,
        AgencyState::Inactive => TenantState::Inactive,
    }
}

/// The outcome of a command on an agency: refused, applied, or applied with a
/// new state to announce and pass on to its tenants.
pub open spec fn agency_command_outcome(agency: AgencyView, command: AgencyCommand) -> Result<Option<StateCascadeView>, AgencyErrorView> {
    match command {
        AgencyCommand::UpdateName { name } => if name@.len() == 0 {
            Err(AgencyErrorView::EmptyName)
        } else {
            Ok(None)
        },
        AgencyCommand::UpdateState { state } => Ok(
            if agency.state != state {
                Some(state_cascade_spec(EntityType::Agency, agency.id->0, tenant_state_of_agency(state)))
            } else {
                None
            },
        ),
        _ => Ok(None),
    }
}

/// The agency after a command that is applied.
pub open spec fn agency_command_effect(agency: AgencyView, command: AgencyCommand) -> AgencyView {
    match command {
        AgencyCommand::UpdateName { name } => AgencyView { name: name@, ..agency },
        AgencyCommand::UpdateState { state } => AgencyView { state, ..agency },
        AgencyCommand::UpdatePlan { plan } => AgencyView { plan: plan@, ..agency },
        AgencyCommand::AddUser { user_id } => AgencyView { users: with_user(agency.users, user_id@), ..agency },
        AgencyCommand::RemoveUser { user_id } => AgencyView { users: without_user(agency.users, user_id@), ..agency },
    }
}

pub open spec fn agency_outcome_view(res: Result<Option<StateCascade>, AgencyError>) -> Result<Option<StateCascadeView>, AgencyErrorView> {
    match res {
        Ok(Some(c)) => Ok(Some(c@)),
        Ok(None) => Ok(None),
        Err(e) => Err(e@),
    }
}

/// Applies a command to an agency (see `agency_command_outcome`); the agency
/// changes only when the command is applied.
pub fn apply_agency_command(entity: &mut AgencyEntity, command: &AgencyCommand) -> (res: Result<Option<StateCascade>, AgencyError>)
    requires
        command matches AgencyCommand::UpdateState { state } && state != old(entity).props_view().state
            ==> old(entity).props_view().id is Some,
    ensures
        agency_outcome_view(res) == agency_command_outcome(old(entity).props_view(), *command),
        res is Ok ==> final(entity).props_view() == agency_command_effect(old(entity).props_view(), *command),
        res is Err ==> final(entity).props_view() == old(entity).props_view(),
{
    match command {
        AgencyCommand::UpdateName { name } => match entity.update_name(name.clone()) {
            Ok(()) => Ok(None),
            Err(e) => Err(e),
        },
        AgencyCommand::UpdatePlan { plan } => match entity.update_plan(*plan) {
            Ok(()) => Ok(None),
            Err(e) => Err(e),
        },
        AgencyCommand::UpdateState { state } => {
            let old_state = entity.get_props().state;
            match entity.update_state(*state) {
                Ok(()) => {},
                Err(e) => return Err(e),
            }
            if old_state != *state {
                let id = entity.get_props().id.unwrap();
                Ok(Some(state_cascade(EntityType::Agency, &id, tenant_state_for_agency(*state))))
            } else {
                Ok(None)
            }
        },
        AgencyCommand::AddUser { user_id } => match entity.add_user(user_id.clone()) {
            Ok(()) => Ok(None),
            Err(e) => Err(e),
        },
        AgencyCommand::RemoveUser { user_id } => match entity.remove_user(user_id.clone()) {
            Ok(()) => Ok(None),
            Err(e) => Err(e),
        },
    }
}

/// Whether a stored agency may be deleted: only an inactive one may.
pub fn agency_deletion_check(agency: &Agency) -> (res: Result<(), AgencyError>)
    ensures
        res is Ok <==> agency.state == AgencyState::Inactive,
        res matches Err(e) ==> e@ == AgencyErrorView::AgencyMustBeInactiveToDelete,
{
    if agency.state != AgencyState::Inactive {
        return Err(AgencyError::AgencyMustBeInactiveToDelete);
    }
    Ok(())
}

/// A new state of an agency is announced and passed on to its tenants as
/// the same state: an active agency makes its tenants active, an inactive one
/// makes them inactive; the event names the agency by the hex of its id. Taking
/// the state it already has announces nothing.
pub proof fn lemma_agency_state_passed_on(current: AgencyView, state: AgencyState)
    ensures
        current.state == state ==> agency_command_outcome(current, AgencyCommand::UpdateState { state }) == Ok::<
            Option<StateCascadeView>,
            AgencyErrorView,
        >(None),
        current.state != state ==> (agency_command_outcome(current, AgencyCommand::UpdateState { state }) matches Ok(Some(c)) && {
            &&& state == AgencyState::Active ==> c.tenant_state == TenantState::Active
            &&& state == AgencyState::Inactive ==> c.tenant_state == TenantState::Inactive
            &&& c.event.state == c.tenant_state
            &&& c.event.entity_type == EntityType::Agency
            &&& c.event.entity_id == hex_encode(current.id->0)
            &&& c.entity_id == current.id->0
        }),
{
}

} // verus!
