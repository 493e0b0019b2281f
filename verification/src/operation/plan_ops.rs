//! The decisions of the plan operations. Checking a billing strategy compares
//! decimal percentages and is done outside; its outcome comes in as a fact.
use vstd::prelude::*;
use crate::commands::plan_command::PlanCommand;
use crate::domain::plans::plan_error::{PlanError, PlanErrorView};
use crate::domain::plans::plan_type::{BillingStrategy, NewPlan, Plan, PlanState, PlanTarget, PlanView};
use crate::domain::plans::PlanEntity;
use crate::utils::domains_ids::{opt_id_view, OrganizationID, PlanID};

verus! {

/// What creating or changing a plan has learnt so far: whether the named
/// organization exists, and what checking the billing strategy gave.
pub struct PlanFacts {
    pub organization_found: Option<bool>,
    pub billing_check: Option<Result<(), String>>,
}

/// What the creation of a plan does next.
pub enum PlanCreationStep {
    /// Check that the organization with this id exists.
    CheckOrganization(OrganizationID),
    /// Check the billing strategy of the new plan.
    ValidateBilling,
    Refuse(PlanError),
    /// Store the plan.
    Create,
}

pub ghost enum PlanCreationDecision {
    CheckOrganization(Seq<u8>),
    ValidateBilling,
    Refuse(PlanErrorView),
    Create,
}

impl View for PlanCreationStep {
    type V = PlanCreationDecision;

    open spec fn view(&self) -> PlanCreationDecision {
        match self {
            PlanCreationStep::CheckOrganization(id) => PlanCreationDecision::CheckOrganization(id@),
            PlanCreationStep::ValidateBilling => PlanCreationDecision::ValidateBilling,
            PlanCreationStep::Refuse(e) => PlanCreationDecision::Refuse(e@),
            PlanCreationStep::Create => PlanCreationDecision::Create,
        }
    }
}

/// What the creation of a plan does next: a tenant plan bound to an
/// organization needs that organization to exist, and a billing strategy must
/// pass its check.
pub open spec fn plan_creation_decision(new_plan: NewPlan, facts: PlanFacts) -> PlanCreationDecision {
    if new_plan.target == PlanTarget::Tenant && new_plan.organization_id is Some && facts.organization_found != Some(true) {
        match facts.organization_found {
            None => PlanCreationDecision::CheckOrganization(new_plan.organization_id->0@),
            _ => PlanCreationDecision::Refuse(PlanErrorView::OrganizationNotFound),
        }
    } else if new_plan.billing_strategy is Some {
        match facts.billing_check {
            None => PlanCreationDecision::ValidateBilling,
            Some(Err(msg)) => PlanCreationDecision::Refuse(PlanErrorView::InvalidBillingStrategy(msg@)),
            Some(Ok(())) => PlanCreationDecision::Create,
        }
    } else {
        PlanCreationDecision::Create
    }
}

/// What the creation of a plan does next (see `plan_creation_decision`).
pub fn next_plan_creation_step(new_plan: &NewPlan, facts: &PlanFacts) -> (step: PlanCreationStep)
    ensures
        step@ == plan_creation_decision(*new_plan, *facts),
{
    if new_plan.target == PlanTarget::Tenant {
        if let Some(org_id) = new_plan.organization_id {
            match facts.organization_found {
                None => return PlanCreationStep::CheckOrganization(org_id),
                Some(false) => return PlanCreationStep::Refuse(PlanError::OrganizationNotFound),
                Some(true) => {},
            }
        }
    }
    if new_plan.billing_strategy.is_some() {
        match &facts.billing_check {
            None => return PlanCreationStep::ValidateBilling,
            Some(Err(msg)) => return PlanCreationStep::Refuse(PlanError::InvalidBillingStrategy(msg.clone())),
            Some(Ok(())) => {},
        }
    }
    PlanCreationStep::Create
}

/// What applying a command to a plan does next.
pub enum PlanCommandStep {
    /// Check that the organization with this id exists.
    CheckOrganization(OrganizationID),
    /// Check the billing strategy that the command sets.
    ValidateBilling,
    Done(Result<(), PlanError>),
}

pub ghost enum PlanCommandDecision {
    CheckOrganization(Seq<u8>),
    ValidateBilling,
    Done(Result<(), PlanErrorView>),
}

impl View for PlanCommandStep {
    type V = PlanCommandDecision;

    open spec fn view(&self) -> PlanCommandDecision {
        match self {
            PlanCommandStep::CheckOrganization(id) => PlanCommandDecision::CheckOrganization(id@),
            PlanCommandStep::ValidateBilling => PlanCommandDecision::ValidateBilling,
            PlanCommandStep::Done(Ok(())) => PlanCommandDecision::Done(Ok(())),
            PlanCommandStep::Done(Err(e)) => PlanCommandDecision::Done(Err(e@)),
        }
    }
}

/// What applying a command to a plan does next: a new name must not be empty,
/// a new organization must exist, a new billing strategy must pass its check.
pub open spec fn plan_command_decision(command: PlanCommand, facts: PlanFacts) -> PlanCommandDecision {
    match command {
        PlanCommand::UpdateName { name } => if name@.len() == 0 {
            PlanCommandDecision::Done(Err(PlanErrorView::EmptyName))
        } else {
            PlanCommandDecision::Done(Ok(()))
        },
        PlanCommand::UpdateOrganizationId { organization_id } => match (organization_id, facts.organization_found) {
            (Some(id), None) => PlanCommandDecision::CheckOrganization(id@),
            (Some(_), Some(false)) => PlanCommandDecision::Done(Err(PlanErrorView::OrganizationNotFound)),
            _ => PlanCommandDecision::Done(Ok(())),
        },
        PlanCommand::UpdateBillingStrategy { billing_strategy } => match (billing_strategy, facts.billing_check) {
            (Some(_), None) => PlanCommandDecision::ValidateBilling,
            (Some(_), Some(Err(msg))) => PlanCommandDecision::Done(Err(PlanErrorView::InvalidBillingStrategy(msg@))),
            _ => PlanCommandDecision::Done(Ok(())),
        },
        _ => PlanCommandDecision::Done(Ok(())),
    }
}

/// The plan after a command that is applied.
pub open spec fn plan_command_effect(plan: PlanView, command: PlanCommand) -> PlanView {
    match command {
        PlanCommand::UpdateName { name } => PlanView { name: name@, ..plan },
        PlanCommand::UpdatePrice { price_bits } => PlanView { price_bits, ..plan },
        PlanCommand::UpdateLimits { limit_tenant, limit_users } => PlanView { limit_tenant, limit_users, ..plan },
        PlanCommand::UpdateState { state } => PlanView { state, ..plan },
        PlanCommand::UpdateFeatures { features } => PlanView { features, ..plan },
        PlanCommand::UpdateTarget { target } => PlanView { target, ..plan },
        PlanCommand::UpdateOrganizationId { organization_id } => PlanView {
            organization_id: opt_id_view(organization_id),
            ..plan
        },
        PlanCommand::UpdateBillingStrategy { billing_strategy } => PlanView { billing_strategy, ..plan },
    }
}

/// Applies a command to a plan once the facts it needs are known (see
/// `plan_command_decision`); the plan changes only when the command is applied.
pub fn apply_plan_command(entity: &mut PlanEntity, command: &PlanCommand, facts: &PlanFacts) -> (step: PlanCommandStep)
    ensures
        step@ == plan_command_decision(*command, *facts),
        step@ == PlanCommandDecision::Done(Ok(())) ==> final(entity).props_view() == plan_command_effect(
            old(entity).props_view(),
            *command,
        ),
        step@ != PlanCommandDecision::Done(Ok(())) ==> final(entity).props_view() == old(entity).props_view(),
{
    match command {
        PlanCommand::UpdateName { name } => PlanCommandStep::Done(entity.update_name(name.clone())),
        PlanCommand::UpdatePrice { price_bits } => PlanCommandStep::Done(entity.update_price(*price_bits)),
        PlanCommand::UpdateLimits { limit_tenant, limit_users } => PlanCommandStep::Done(
            entity.update_limits(*limit_tenant, *limit_users),
        ),
        PlanCommand::UpdateState { state } => PlanCommandStep::Done(entity.update_state(*state)),
        PlanCommand::UpdateFeatures { features } => PlanCommandStep::Done(entity.update_features(*features)),
        PlanCommand::UpdateTarget { target } => PlanCommandStep::Done(entity.update_target(*target)),
        PlanCommand::UpdateOrganizationId { organization_id } => {
            if let Some(id) = organization_id {
                match facts.organization_found {
                    None => return PlanCommandStep::CheckOrganization(*id),
                    Some(false) => return PlanCommandStep::Done(Err(PlanError::OrganizationNotFound)),
                    Some(true) => {},
                }
            }
            PlanCommandStep::Done(entity.update_organization_id(*organization_id))
        },
        PlanCommand::UpdateBillingStrategy { billing_strategy } => {
            let validation = match billing_strategy {
                None => Ok(()),
                Some(_) => match &facts.billing_check {
                    None => return PlanCommandStep::ValidateBilling,
                    Some(Ok(())) => Ok(()),
                    Some(Err(msg)) => Err(msg.clone()),
                },
            };
            PlanCommandStep::Done(entity.update_billing_strategy(*billing_strategy, validation))
        },
    }
}

/// What deleting a plan has learnt of its use: `None` is not counted yet,
/// `Some(None)` is a count that failed.
pub struct PlanDeletionFacts {
    pub users: Option<Option<u64>>,
}

/// What the deletion of a plan does next.
pub enum PlanDeletionStep {
    Refuse(PlanError),
    /// Count the organizations whose plan has this id.
    CountOrganizationsUsing(PlanID),
    /// Count the tenants whose own plan has this id.
    CountTenantsUsing(PlanID),
    Delete,
}

pub ghost enum PlanDeletionDecision {
    Refuse(PlanErrorView),
    CountOrganizationsUsing(Seq<u8>),
    CountTenantsUsing(Seq<u8>),
    Delete,
}

impl View for PlanDeletionStep {
    type V = PlanDeletionDecision;

    open spec fn view(&self) -> PlanDeletionDecision {
        match self {
            PlanDeletionStep::Refuse(e) => PlanDeletionDecision::Refuse(e@),
            PlanDeletionStep::CountOrganizationsUsing(id) => PlanDeletionDecision::CountOrganizationsUsing(id@),
            PlanDeletionStep::CountTenantsUsing(id) => PlanDeletionDecision::CountTenantsUsing(id@),
            PlanDeletionStep::Delete => PlanDeletionDecision::Delete,
        }
    }
}

/// What the deletion of a plan does next: only an inactive plan that nothing
/// of its target uses may be deleted; a failed count reads as the plan not found.
pub open spec fn plan_deletion_decision(plan_id: Seq<u8>, plan: PlanView, facts: PlanDeletionFacts) -> PlanDeletionDecision {
    if plan.state != PlanState::Inactive {
        PlanDeletionDecision::Refuse(PlanErrorView::PlanMustBeInactiveToDelete)
    } else {
        match facts.users {
            None => match plan.target {
                PlanTarget::Organization => PlanDeletionDecision::CountOrganizationsUsing(plan_id),
                PlanTarget::Tenant => PlanDeletionDecision::CountTenantsUsing(plan_id),
            },
            Some(None) => PlanDeletionDecision::Refuse(PlanErrorView::PlanNotFound),
            Some(Some(n)) => if n > 0 {
                PlanDeletionDecision::Refuse(PlanErrorView::PlanInUse)
            } else {
                PlanDeletionDecision::Delete
            },
        }
    }
}

/// What the deletion of the plan with id `plan_id`, stored as `plan`, does next
/// (see `plan_deletion_decision`).
pub fn next_plan_deletion_step(plan_id: &PlanID, plan: &Plan, facts: &PlanDeletionFacts) -> (step: PlanDeletionStep)
    ensures
        step@ == plan_deletion_decision(plan_id@, plan@, *facts),
{
    if plan.state != PlanState::Inactive {
        return PlanDeletionStep::Refuse(PlanError::PlanMustBeInactiveToDelete);
    }
    match facts.users {
        None => match plan.target {
            PlanTarget::Organization => PlanDeletionStep::CountOrganizationsUsing(*plan_id),
            PlanTarget::Tenant => PlanDeletionStep::CountTenantsUsing(*plan_id),
        },
        Some(None) => PlanDeletionStep::Refuse(PlanError::PlanNotFound),
        Some(Some(n)) => if n > 0 {
            PlanDeletionStep::Refuse(PlanError::PlanInUse)
        } else {
            PlanDeletionStep::Delete
        },
    }
}


/// A plan is deleted only when it is inactive and nothing of its target uses it.
pub proof fn lemma_plan_deletion_rules(plan_id: Seq<u8>, plan: PlanView, facts: PlanDeletionFacts)
    requires
        plan_deletion_decision(plan_id, plan, facts) == PlanDeletionDecision::Delete,
    ensures
        plan.state == PlanState::Inactive,
        facts.users == Some(Some(0u64)),
{
}

/// A plan is created only when a tenant plan bound to an organization has that
/// organization found, and a billing strategy it names passed its check.
pub proof fn lemma_plan_creation_rules(new_plan: NewPlan, facts: PlanFacts)
    requires
        plan_creation_decision(new_plan, facts) == PlanCreationDecision::Create,
    ensures
        new_plan.target == PlanTarget::Tenant && new_plan.organization_id is Some ==> facts.organization_found == Some(true),
        new_plan.billing_strategy is Some ==> (facts.billing_check is Some && facts.billing_check->0 is Ok),
{
}

/// A billing strategy that failed its check is never set: the command is
/// refused with the check's message (and the plan stays as it was); one that
/// passed it, or clearing the strategy, is applied and sets exactly it.
pub proof fn lemma_billing_strategy_follows_its_check(plan: PlanView, strategy: Option<BillingStrategy>, facts: PlanFacts)
    ensures
        (strategy is Some && facts.billing_check is Some && facts.billing_check->0 is Err) ==> plan_command_decision(
            PlanCommand::UpdateBillingStrategy { billing_strategy: strategy },
            facts,
        ) == PlanCommandDecision::Done(Err(PlanErrorView::InvalidBillingStrategy(facts.billing_check->0->Err_0@))),
        strategy is Some && facts.billing_check is None ==> plan_command_decision(
            PlanCommand::UpdateBillingStrategy { billing_strategy: strategy },
            facts,
        ) == PlanCommandDecision::ValidateBilling,
        (strategy is None || facts.billing_check == Some(Ok::<(), String>(()))) ==> {
            &&& plan_command_decision(PlanCommand::UpdateBillingStrategy { billing_strategy: strategy }, facts)
                == PlanCommandDecision::Done(Ok(()))
            &&& plan_command_effect(plan, PlanCommand::UpdateBillingStrategy { billing_strategy: strategy })
                == (PlanView { billing_strategy: strategy, ..plan })
        },
{
}

/// A new plan whose billing strategy failed its check is refused with the
/// check's message.
pub proof fn lemma_failed_billing_check_refuses_plan(new_plan: NewPlan, facts: PlanFacts)
    requires
        new_plan.billing_strategy is Some,
        facts.billing_check is Some && facts.billing_check->0 is Err,
    ensures
        plan_creation_decision(new_plan, facts) != PlanCreationDecision::Create,
        !(new_plan.target == PlanTarget::Tenant && new_plan.organization_id is Some
            && facts.organization_found != Some(true)) ==> plan_creation_decision(new_plan, facts)
            == PlanCreationDecision::Refuse(PlanErrorView::InvalidBillingStrategy(facts.billing_check->0->Err_0@)),
{
}

} // verus!
