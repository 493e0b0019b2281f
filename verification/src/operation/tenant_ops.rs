//! The decisions of the tenant operations. The operations themselves read and
//! write the store, the cache and the message bus; each decision here says what
//! to look up next or what the outcome is, given what was looked up so far.
use vstd::prelude::*;
use crate::commands::organization_command::OrganizationState;
use crate::commands::tenant_command::TenantCommand;
use crate::domain::organization::organization_type::Organization;
use crate::domain::plans::plan_type::{Plan, PlanState, PlanTarget};
use crate::domain::tenant::menu::{
    active_main_count, duplicate_menus, duplicate_strings, first_menu_index, menus_view, regroup_items,
    MenuView,
};
use crate::domain::tenant::tenant_error::{TenantError, TenantErrorView};
use crate::domain::tenant::tenant_type::{
    features_admitted, strings_view, NewTenant, Tenant, TenantFeatures, TenantState, TenantView,
};
use crate::domain::tenant::TenantEntity;
use crate::handlers::messages::{state_changed_event, EntityType, StateChangedEvent, StateChangedEventView};
use crate::utils::domains_ids::{hex_encode, opt_id_view, EntityId, OrganizationID, PlanID, TenantID};

verus! {

/// What the creation of a tenant has looked up so far. `None` is not looked up
/// yet; `Some(None)` is looked up and not found.
pub struct TenantCreationFacts {
    pub organization: Option<Option<Organization>>,
    pub organization_plan: Option<Option<Plan>>,
    pub tenant_count: Option<usize>,
    pub tenant_plan: Option<Option<Plan>>,
}

/// What the creation of a tenant does next.
pub enum TenantCreationStep {
    /// Look up the organization with this id.
    FetchOrganization(OrganizationID),
    /// Look up the organization's plan, which has this id.
    FetchOrganizationPlan(PlanID),
    /// Count the tenants of the organization with this id.
    CountTenants(OrganizationID),
    /// Look up the tenant's own plan, which has this id.
    FetchTenantPlan(PlanID),
    /// Refuse the tenant.
    Refuse(TenantError),
    /// Store the tenant.
    Create,
}

pub ghost enum TenantCreationDecision {
    FetchOrganization(Seq<u8>),
    FetchOrganizationPlan(Seq<u8>),
    CountTenants(Seq<u8>),
    FetchTenantPlan(Seq<u8>),
    Refuse(TenantErrorView),
    Create,
}

impl View for TenantCreationStep {
    type V = TenantCreationDecision;

    open spec fn view(&self) -> TenantCreationDecision {
        match self {
            TenantCreationStep::FetchOrganization(id) => TenantCreationDecision::FetchOrganization(id@),
            TenantCreationStep::FetchOrganizationPlan(id) => TenantCreationDecision::FetchOrganizationPlan(id@),
            TenantCreationStep::CountTenants(id) => TenantCreationDecision::CountTenants(id@),
            TenantCreationStep::FetchTenantPlan(id) => TenantCreationDecision::FetchTenantPlan(id@),
            TenantCreationStep::Refuse(e) => TenantCreationDecision::Refuse(e@),
            TenantCreationStep::Create => TenantCreationDecision::Create,
        }
    }
}

/// Why a tenant's own plan cannot be used by a tenant of the given
/// organization with the given features, if it cannot: it must be a tenant
/// plan, active, not bound to another organization, and admit the features.
/// `mismatch` is the text given when the features are not admitted.
pub open spec fn tenant_plan_problem(
    plan: Plan,
    organization_id: Seq<u8>,
    features: TenantFeatures,
    mismatch: Seq<char>,
) -> Option<TenantErrorView> {
    if plan.target != PlanTarget::Tenant {
        Some(TenantErrorView::InvalidTenantPlan("Selected plan is not a tenant plan"@))
    } else if plan.state == PlanState::Inactive {
        Some(TenantErrorView::TenantPlanInactive)
    } else if plan.organization_id is Some && plan.organization_id->0@ != organization_id {
        Some(TenantErrorView::TenantPlanNotAllowedForOrganization)
    } else if !features_admitted(features, plan.features) {
        Some(TenantErrorView::FeatureNotAllowedByTenantPlan(mismatch))
    } else {
        None
    }
}

/// What the creation of a tenant does next: the organization must exist and
/// be active, its plan must exist and admit the tenant's features, a positive
/// tenant limit of that plan must not be reached, and a tenant plan, when
/// given, must pass `tenant_plan_problem`.
pub open spec fn tenant_creation_decision(new_tenant: NewTenant, facts: TenantCreationFacts) -> TenantCreationDecision {
    match facts.organization {
        None => TenantCreationDecision::FetchOrganization(new_tenant.organization_id@),
        Some(None) => TenantCreationDecision::Refuse(TenantErrorView::OrganizationNotFound),
        Some(Some(org)) => if org.state == OrganizationState::Inactive {
            TenantCreationDecision::Refuse(TenantErrorView::OrganizationInactive)
        } else {
            match facts.organization_plan {
                None => TenantCreationDecision::FetchOrganizationPlan(org.plan@),
                Some(None) => TenantCreationDecision::Refuse(TenantErrorView::PlanNotFound),
                Some(Some(plan)) => if !features_admitted(new_tenant.features, plan.features) {
                    TenantCreationDecision::Refuse(TenantErrorView::FeatureNotAllowedByPlan("migration"@))
                } else if plan.limit_tenant > 0 && facts.tenant_count is None {
                    TenantCreationDecision::CountTenants(new_tenant.organization_id@)
                } else if plan.limit_tenant > 0 && facts.tenant_count->0 >= plan.limit_tenant {
                    TenantCreationDecision::Refuse(TenantErrorView::TenantLimitReached)
                } else {
                    match new_tenant.plan_id {
                        None => TenantCreationDecision::Create,
                        Some(plan_id) => match facts.tenant_plan {
                            None => TenantCreationDecision::FetchTenantPlan(plan_id@),
                            Some(None) => TenantCreationDecision::Refuse(TenantErrorView::TenantPlanNotFound),
                            Some(Some(tenant_plan)) => match tenant_plan_problem(
                                tenant_plan,
                                new_tenant.organization_id@,
                                new_tenant.features,
                                "Feature not allowed by tenant plan"@,
                            ) {
                                Some(e) => TenantCreationDecision::Refuse(e),
                                None => TenantCreationDecision::Create,
                            },
                        },
                    }
                },
            }
        },
    }
}

/// Why a tenant's own plan cannot be used, if it cannot (see `tenant_plan_problem`).
pub fn check_tenant_plan(plan: &Plan, organization_id: &OrganizationID, features: &TenantFeatures, mismatch: &str) -> (problem: Option<TenantError>)
    ensures
        match problem {
            Some(e) => tenant_plan_problem(*plan, organization_id@, *features, mismatch@) == Some(e@),
            None => tenant_plan_problem(*plan, organization_id@, *features, mismatch@) is None,
        },
{
    if plan.target != PlanTarget::Tenant {
        return Some(TenantError::InvalidTenantPlan("Selected plan is not a tenant plan".to_owned()));
    }
    if plan.state == PlanState::Inactive {
        return Some(TenantError::TenantPlanInactive);
    }
    if let Some(allowed) = &plan.organization_id {
        if !allowed.same_as(organization_id) {
            return Some(TenantError::TenantPlanNotAllowedForOrganization);
        }
    }
    if features.validate_against_plan(&plan.features).is_err() {
        return Some(TenantError::FeatureNotAllowedByTenantPlan(mismatch.to_owned()));
    }
    None
}

/// What the creation of a tenant does next (see `tenant_creation_decision`).
pub fn next_tenant_creation_step(new_tenant: &NewTenant, facts: &TenantCreationFacts) -> (step: TenantCreationStep)
    ensures
        step@ == tenant_creation_decision(*new_tenant, *facts),
{
    let org = match &facts.organization {
        None => return TenantCreationStep::FetchOrganization(new_tenant.organization_id),
        Some(None) => return TenantCreationStep::Refuse(TenantError::OrganizationNotFound),
        Some(Some(org)) => org,
    };
    if org.state == OrganizationState::Inactive {
        return TenantCreationStep::Refuse(TenantError::OrganizationInactive);
    }
    let plan = match &facts.organization_plan {
        None => return TenantCreationStep::FetchOrganizationPlan(org.plan),
        Some(None) => return TenantCreationStep::Refuse(TenantError::PlanNotFound),
        Some(Some(plan)) => plan,
    };
    if let Err(e) = new_tenant.features.validate_against_plan(&plan.features) {
        return TenantCreationStep::Refuse(e);
    }
    if plan.limit_tenant > 0 {
        match facts.tenant_count {
            None => return TenantCreationStep::CountTenants(new_tenant.organization_id),
            Some(count) => {
                if count >= plan.limit_tenant as usize {
                    return TenantCreationStep::Refuse(TenantError::TenantLimitReached);
                }
            },
        }
    }
    match new_tenant.plan_id {
        None => TenantCreationStep::Create,
        Some(plan_id) => match &facts.tenant_plan {
            None => TenantCreationStep::FetchTenantPlan(plan_id),
            Some(None) => TenantCreationStep::Refuse(TenantError::TenantPlanNotFound),
            Some(Some(tenant_plan)) => match check_tenant_plan(
                tenant_plan,
                &new_tenant.organization_id,
                &new_tenant.features,
                "Feature not allowed by tenant plan",
            ) {
                Some(e) => TenantCreationStep::Refuse(e),
                None => TenantCreationStep::Create,
            },
        },
    }
}


/// What applying a command to a tenant has looked up so far. `None` is not
/// looked up yet; `Some(None)` is looked up and not found.
pub struct TenantCommandFacts {
    pub organization: Option<Option<Organization>>,
    pub organization_plan: Option<Option<Plan>>,
    pub tenant_plan: Option<Option<Plan>>,
}

/// What applying a command to a tenant does next.
pub enum TenantCommandStep {
    /// Look up the tenant's organization, which has this id.
    FetchOrganization(OrganizationID),
    /// Look up the organization's plan, which has this id.
    FetchOrganizationPlan(PlanID),
    /// Look up the tenant plan with this id.
    FetchTenantPlan(PlanID),
    /// The command is applied or refused; a new state is announced with the event.
    Done(Result<(), TenantError>, Option<StateChangedEvent>),
}

pub ghost enum TenantCommandDecision {
    FetchOrganization(Seq<u8>),
    FetchOrganizationPlan(Seq<u8>),
    FetchTenantPlan(Seq<u8>),
    Done(Result<(), TenantErrorView>, Option<StateChangedEventView>),
}

pub open spec fn result_view(res: Result<(), TenantError>) -> Result<(), TenantErrorView> {
    match res {
        Ok(()) => Ok(()),
        Err(e) => Err(e@),
    }
}

pub open spec fn event_view(event: Option<StateChangedEvent>) -> Option<StateChangedEventView> {
    match event {
        Some(e) => Some(e@),
        None => None,
    }
}

impl View for TenantCommandStep {
    type V = TenantCommandDecision;

    open spec fn view(&self) -> TenantCommandDecision {
        match self {
            TenantCommandStep::FetchOrganization(id) => TenantCommandDecision::FetchOrganization(id@),
            TenantCommandStep::FetchOrganizationPlan(id) => TenantCommandDecision::FetchOrganizationPlan(id@),
            TenantCommandStep::FetchTenantPlan(id) => TenantCommandDecision::FetchTenantPlan(id@),
            TenantCommandStep::Done(res, event) => TenantCommandDecision::Done(result_view(*res), event_view(*event)),
        }
    }
}

/// What stops a tenant from taking a state, if anything: becoming active from
/// another state needs its organization to exist and be active.
pub open spec fn state_gate(tenant: TenantView, state: TenantState, facts: TenantCommandFacts) -> Option<TenantCommandDecision> {
    if state == TenantState::Active && tenant.state != TenantState::Active {
        match facts.organization {
            None => Some(TenantCommandDecision::FetchOrganization(tenant.organization_id)),
            Some(None) => Some(TenantCommandDecision::Done(Err(TenantErrorView::OrganizationNotFound), None)),
            Some(Some(org)) => if org.state == OrganizationState::Inactive {
                Some(TenantCommandDecision::Done(Err(TenantErrorView::OrganizationInactive), None))
            } else {
                None
            },
        }
    } else {
        None
    }
}

/// What applying a command to a tenant does next. Features must be admitted by
/// the organization's plan and by the tenant's own plan if it has one; a new
/// own plan must pass `tenant_plan_problem` for the tenant's current features;
/// a new name must not be empty; new menus must not have two active main menus;
/// a regrouped item must exist in the named menu. A change of state is announced.
pub open spec fn tenant_command_decision(tenant: TenantView, command: TenantCommand, facts: TenantCommandFacts) -> TenantCommandDecision {
    match command {
        TenantCommand::UpdateName { name } => if name@.len() == 0 {
            TenantCommandDecision::Done(Err(TenantErrorView::EmptyName), None)
        } else {
            TenantCommandDecision::Done(Ok(()), None)
        },
        TenantCommand::UpdateState { state } => match state_gate(tenant, state, facts) {
            Some(d) => d,
            None => TenantCommandDecision::Done(
                Ok(()),
                if tenant.state != state {
                    Some(StateChangedEventView {
                        entity_type: EntityType::Tenant,
                        entity_id: hex_encode(tenant.id->0),
                        state,
                    })
                } else {
                    None
                },
            ),
        },
        TenantCommand::UpdateFeatures { features } => match facts.organization {
            None => TenantCommandDecision::FetchOrganization(tenant.organization_id),
            Some(None) => TenantCommandDecision::Done(Err(TenantErrorView::OrganizationNotFound), None),
            Some(Some(org)) => match facts.organization_plan {
                None => TenantCommandDecision::FetchOrganizationPlan(org.plan@),
                Some(None) => TenantCommandDecision::Done(Err(TenantErrorView::PlanNotFound), None),
                Some(Some(plan)) => if !features_admitted(features, plan.features) {
                    TenantCommandDecision::Done(Err(TenantErrorView::FeatureNotAllowedByPlan("migration"@)), None)
                } else {
                    match tenant.plan_id {
                        None => TenantCommandDecision::Done(Ok(()), None),
                        Some(plan_id) => match facts.tenant_plan {
                            None => TenantCommandDecision::FetchTenantPlan(plan_id),
                            Some(None) => TenantCommandDecision::Done(Err(TenantErrorView::TenantPlanNotFound), None),
                            Some(Some(tenant_plan)) => if !features_admitted(features, tenant_plan.features) {
                                TenantCommandDecision::Done(
                                    Err(TenantErrorView::FeatureNotAllowedByTenantPlan("Feature not allowed by tenant plan"@)),
                                    None,
                                )
                            } else {
                                TenantCommandDecision::Done(Ok(()), None)
                            },
                        },
                    }
                },
            },
        },
        TenantCommand::UpdatePlan { plan_id } => match plan_id {
            None => TenantCommandDecision::Done(Ok(()), None),
            Some(id) => match facts.tenant_plan {
                None => TenantCommandDecision::FetchTenantPlan(id@),
                Some(None) => TenantCommandDecision::Done(Err(TenantErrorView::TenantPlanNotFound), None),
                Some(Some(plan)) => match tenant_plan_problem(
                    plan,
                    tenant.organization_id,
                    tenant.features,
                    "Current tenant features exceed the new tenant plan"@,
                ) {
                    Some(e) => TenantCommandDecision::Done(Err(e), None),
                    None => TenantCommandDecision::Done(Ok(()), None),
                },
            },
        },
        TenantCommand::UpdateMenus { menus } => if active_main_count(menus_view(menus@)) > 1 {
            TenantCommandDecision::Done(Err(TenantErrorView::OnlyOneActiveMainMenu), None)
        } else {
            TenantCommandDecision::Done(Ok(()), None)
        },
        TenantCommand::UpdateMenuItemGroupId { menu_name, item_id, group_id } => match first_menu_index(tenant.menus, menu_name@) {
            None => TenantCommandDecision::Done(Err(TenantErrorView::MenuNotFound), None),
            Some(p) => match regroup_items(tenant.menus[p].items, item_id@, group_id@) {
                None => TenantCommandDecision::Done(Err(TenantErrorView::MenuItemNotFound), None),
                Some(_) => TenantCommandDecision::Done(Ok(()), None),
            },
        },
        _ => TenantCommandDecision::Done(Ok(()), None),
    }
}

/// The tenant after a command that is applied.
pub open spec fn tenant_command_effect(tenant: TenantView, command: TenantCommand) -> TenantView {
    match command {
        TenantCommand::UpdateName { name } => TenantView { name: name@, ..tenant },
        TenantCommand::UpdateState { state } => TenantView { state, ..tenant },
        TenantCommand::UpdateConfiguration { configuration } => TenantView { configuration: configuration@, ..tenant },
        TenantCommand::UpdateFeatures { features } => TenantView { features, ..tenant },
        TenantCommand::UpdatePlan { plan_id } => TenantView { plan_id: opt_id_view(plan_id), ..tenant },
        TenantCommand::UpdateDefaultLanguage { default_language } => TenantView {
            default_language: default_language@,
            ..tenant
        },
        TenantCommand::UpdateAvailableLanguages { available_languages } => TenantView {
            available_languages: strings_view(available_languages@),
            ..tenant
        },
        TenantCommand::UpdateMenus { menus } => TenantView { menus: menus_view(menus@), ..tenant },
        TenantCommand::UpdateMenuItemGroupId { menu_name, item_id, group_id } => {
            let p = first_menu_index(tenant.menus, menu_name@)->0;
            let items = regroup_items(tenant.menus[p].items, item_id@, group_id@)->0;
            TenantView { menus: tenant.menus.update(p, MenuView { items, ..tenant.menus[p] }), ..tenant }
        },
    }
}

/// Whether applying the command announces a new state, which needs the tenant's id.
pub open spec fn announces_state(tenant: TenantView, command: TenantCommand, facts: TenantCommandFacts) -> bool {
    command matches TenantCommand::UpdateState { state } && state != tenant.state && state_gate(tenant, state, facts) is None
}

/// Applies a command to a tenant once the facts it needs are looked up (see
/// `tenant_command_decision`); the tenant changes only when the command is applied.
pub fn apply_tenant_command(entity: &mut TenantEntity, command: &TenantCommand, facts: &TenantCommandFacts) -> (step: TenantCommandStep)
    requires
        announces_state(old(entity).props_view(), *command, *facts) ==> old(entity).props_view().id is Some,
    ensures
        step@ == tenant_command_decision(old(entity).props_view(), *command, *facts),
        step@ matches TenantCommandDecision::Done(Ok(()), _) ==> final(entity).props_view() == tenant_command_effect(
            old(entity).props_view(),
            *command,
        ),
        !(step@ matches TenantCommandDecision::Done(Ok(()), _)) ==> final(entity).props_view() == old(entity).props_view(),
{
    match command {
        TenantCommand::UpdateName { name } => TenantCommandStep::Done(entity.update_name(name.clone()), None),
        TenantCommand::UpdateState { state } => {
            let old_state = entity.get_props().state;
            if *state == TenantState::Active && old_state != TenantState::Active {
                match &facts.organization {
                    None => return TenantCommandStep::FetchOrganization(entity.get_props().organization_id),
                    Some(None) => return TenantCommandStep::Done(Err(TenantError::OrganizationNotFound), None),
                    Some(Some(org)) => {
                        if org.state == OrganizationState::Inactive {
                            return TenantCommandStep::Done(Err(TenantError::OrganizationInactive), None);
                        }
                    },
                }
            }
            let res = entity.update_state(*state);
            let event = if old_state != *state {
                let id = entity.get_props().id.unwrap();
                Some(state_changed_event(EntityType::Tenant, &id, *state))
            } else {
                None
            };
            TenantCommandStep::Done(res, event)
        },
        TenantCommand::UpdateConfiguration { configuration } => TenantCommandStep::Done(
            entity.update_configuration(configuration.duplicate()),
            None,
        ),
        TenantCommand::UpdateFeatures { features } => {
            let org = match &facts.organization {
                None => return TenantCommandStep::FetchOrganization(entity.get_props().organization_id),
                Some(None) => return TenantCommandStep::Done(Err(TenantError::OrganizationNotFound), None),
                Some(Some(org)) => org,
            };
            let plan = match &facts.organization_plan {
                None => return TenantCommandStep::FetchOrganizationPlan(org.plan),
                Some(None) => return TenantCommandStep::Done(Err(TenantError::PlanNotFound), None),
                Some(Some(plan)) => plan,
            };
            if let Err(e) = features.validate_against_plan(&plan.features) {
                return TenantCommandStep::Done(Err(e), None);
            }
            if let Some(plan_id) = entity.get_props().plan_id {
                match &facts.tenant_plan {
                    None => return TenantCommandStep::FetchTenantPlan(plan_id),
                    Some(None) => return TenantCommandStep::Done(Err(TenantError::TenantPlanNotFound), None),
                    Some(Some(tenant_plan)) => {
                        if features.validate_against_plan(&tenant_plan.features).is_err() {
                            return TenantCommandStep::Done(
                                Err(TenantError::FeatureNotAllowedByTenantPlan("Feature not allowed by tenant plan".to_owned())),
                                None,
                            );
                        }
                    },
                }
            }
            TenantCommandStep::Done(entity.update_features(*features), None)
        },
        TenantCommand::UpdatePlan { plan_id } => {
            if let Some(id) = plan_id {
                match &facts.tenant_plan {
                    None => return TenantCommandStep::FetchTenantPlan(*id),
                    Some(None) => return TenantCommandStep::Done(Err(TenantError::TenantPlanNotFound), None),
                    Some(Some(plan)) => {
                        let props = entity.get_props();
                        if let Some(e) = check_tenant_plan(
                            plan,
                            &props.organization_id,
                            &props.features,
                            "Current tenant features exceed the new tenant plan",
                        ) {
                            return TenantCommandStep::Done(Err(e), None);
                        }
                    },
                }
            }
            TenantCommandStep::Done(entity.update_plan_id(*plan_id), None)
        },
        TenantCommand::UpdateDefaultLanguage { default_language } => TenantCommandStep::Done(
            entity.update_default_language(default_language.clone()),
            None,
        ),
        TenantCommand::UpdateAvailableLanguages { available_languages } => TenantCommandStep::Done(
            entity.update_available_languages(duplicate_strings(available_languages)),
            None,
        ),
        TenantCommand::UpdateMenus { menus } => TenantCommandStep::Done(entity.update_menus(duplicate_menus(menus)), None),
        TenantCommand::UpdateMenuItemGroupId { menu_name, item_id, group_id } => TenantCommandStep::Done(
            entity.update_menu_item_group_id(menu_name.clone(), *item_id, group_id.clone()),
            None,
        ),
    }
}


/// The cache key under which a listing of tenants is kept.
pub open spec fn tenant_cache_key_spec(host: Option<Seq<char>>, organization_id: Option<Seq<u8>>) -> Seq<char> {
    match (host, organization_id) {
        (Some(h), Some(o)) => "all_tenants_"@ + h + "_"@ + hex_encode(o),
        (Some(h), None) => "all_tenants_"@ + h,
        (None, Some(o)) => "all_tenants_"@ + hex_encode(o),
        (None, None) => "all_tenants"@,
    }
}

/// The cache key under which a listing of tenants, by host and organization, is kept.
pub fn tenant_cache_key(host: &Option<String>, organization_id: &Option<OrganizationID>) -> (key: String)
    ensures
        key@ == tenant_cache_key_spec(
            match host {
                Some(h) => Some(h@),
                None => None,
            },
            opt_id_view(*organization_id),
        ),
{
    match (host, organization_id) {
        (Some(h), Some(o)) => "all_tenants_".to_owned().concat(h.as_str()).concat("_").concat(o.to_hex().as_str()),
        (Some(h), None) => "all_tenants_".to_owned().concat(h.as_str()),
        (None, Some(o)) => "all_tenants_".to_owned().concat(o.to_hex().as_str()),
        (None, None) => "all_tenants".to_owned(),
    }
}

/// The pattern that matches every tenant listing key.
pub fn tenant_cache_pattern() -> (pattern: String)
    ensures
        pattern@ == "all_tenants*"@,
{
    "all_tenants*".to_owned()
}

/// Every listing key falls under the pattern that clearing the cache removes:
/// each one begins with the text before the pattern's closing `*`.
pub proof fn lemma_cache_pattern_covers_keys(host: Option<Seq<char>>, organization_id: Option<Seq<u8>>)
    ensures
        "all_tenants*"@ == "all_tenants"@.push('*'),
        "all_tenants"@.is_prefix_of(tenant_cache_key_spec(host, organization_id)),
{
    reveal_strlit("all_tenants*");
    reveal_strlit("all_tenants");
    reveal_strlit("all_tenants_");
    reveal_strlit("_");
    assert("all_tenants*"@ =~= "all_tenants"@.push('*'));
    let key = tenant_cache_key_spec(host, organization_id);
    assert(key.subrange(0, "all_tenants"@.len() as int) =~= "all_tenants"@);
}

/// Whether a stored tenant may be deleted: only an inactive one may.
pub fn tenant_deletion_check(tenant: &Tenant) -> (res: Result<(), TenantError>)
    ensures
        res is Ok <==> tenant.state == TenantState::Inactive,
        res matches Err(e) ==> e@ == TenantErrorView::TenantMustBeInactiveToDelete,
{
    if tenant.state != TenantState::Inactive {
        return Err(TenantError::TenantMustBeInactiveToDelete);
    }
    Ok(())
}

/// The ids of the tenants, in order, whose state differs from `state`; tenants
/// without an id are passed over.
pub open spec fn cascade_targets(tenants: Seq<TenantView>, state: TenantState) -> Seq<Seq<u8>>
    decreases tenants.len(),
{
    if tenants.len() == 0 {
        Seq::empty()
    } else {
        let rest = cascade_targets(tenants.drop_last(), state);
        let last = tenants.last();
        if last.state != state && last.id is Some {
            rest.push(last.id->0)
        } else {
            rest
        }
    }
}

pub open spec fn tenants_view(tenants: Seq<Tenant>) -> Seq<TenantView> {
    tenants.map_values(|t: Tenant| t@)
}

pub open spec fn ids_view(ids: Seq<TenantID>) -> Seq<Seq<u8>> {
    ids.map_values(|i: TenantID| i@)
}

/// The tenants that a new state of their organization or agency is passed on
/// to: those in another state, in order.
pub fn tenants_to_cascade(tenants: &Vec<Tenant>, state: TenantState) -> (ids: Vec<TenantID>)
    ensures
        ids_view(ids@) == cascade_targets(tenants_view(tenants@), state),
{
    let ghost all = tenants_view(tenants@);
    let mut ids: Vec<TenantID> = Vec::new();
    let mut i: usize = 0;
    proof {
        assert(all.take(0) =~= Seq::<TenantView>::empty());
        assert(ids_view(ids@) =~= Seq::<Seq<u8>>::empty());
    }
    while i < tenants.len()
        invariant
            i <= tenants@.len(),
            all == tenants_view(tenants@),
            ids_view(ids@) == cascade_targets(all.take(i as int), state),
        decreases tenants@.len() - i,
    {
        proof {
            assert(all.take(i + 1).drop_last() =~= all.take(i as int));
            assert(all.take(i + 1).last() == tenants@[i as int]@);
        }
        let tenant = &tenants[i];
        if tenant.state != state {
            if let Some(id) = tenant.id {
                let ghost before = ids@;
                ids.push(id);
                proof {
                    assert(ids_view(ids@) =~= ids_view(before).push(id@));
                }
            }
        }
        i = i + 1;
    }
    proof {
        assert(all.take(tenants@.len() as int) =~= all);
    }
    ids
}


/// A new state of an organization or an agency: the event that announces it,
/// the entity's id and the state to pass on to its tenants.
pub struct StateCascade {
    pub event: StateChangedEvent,
    pub entity_id: EntityId,
    pub tenant_state: TenantState,
}

pub ghost struct StateCascadeView {
    pub event: StateChangedEventView,
    pub entity_id: Seq<u8>,
    pub tenant_state: TenantState,
}

impl View for StateCascade {
    type V = StateCascadeView;

    open spec fn view(&self) -> StateCascadeView {
        StateCascadeView { event: self.event@, entity_id: self.entity_id@, tenant_state: self.tenant_state }
    }
}

/// The cascade of a new state of the entity of the given type and id.
pub open spec fn state_cascade_spec(entity_type: EntityType, id: Seq<u8>, tenant_state: TenantState) -> StateCascadeView {
    StateCascadeView {
        event: StateChangedEventView { entity_type, entity_id: hex_encode(id), state: tenant_state },
        entity_id: id,
        tenant_state,
    }
}

/// The cascade of a new state of the entity of the given type and id.
pub fn state_cascade(entity_type: EntityType, id: &EntityId, tenant_state: TenantState) -> (cascade: StateCascade)
    ensures
        cascade@ == state_cascade_spec(entity_type, id@, tenant_state),
{
    StateCascade { event: state_changed_event(entity_type, id, tenant_state), entity_id: *id, tenant_state }
}


/// A tenant is created only when its organization was found and is active,
/// the organization's plan was found and admits the tenant's features, a
/// positive tenant limit of that plan is not reached, and its own plan, when it
/// names one, was found and is an active tenant plan, not bound to another
/// organization, that admits its features.
pub proof fn lemma_tenant_creation_rules(new_tenant: NewTenant, facts: TenantCreationFacts)
    requires
        tenant_creation_decision(new_tenant, facts) == TenantCreationDecision::Create,
    ensures
        facts.organization is Some && facts.organization->0 is Some,
        facts.organization->0->0.state == OrganizationState::Active,
        facts.organization_plan is Some && facts.organization_plan->0 is Some,
        features_admitted(new_tenant.features, facts.organization_plan->0->0.features),
        facts.organization_plan->0->0.limit_tenant > 0 ==> facts.tenant_count is Some
            && facts.tenant_count->0 < facts.organization_plan->0->0.limit_tenant,
        new_tenant.plan_id is Some ==> facts.tenant_plan is Some && facts.tenant_plan->0 is Some && {
            let own = facts.tenant_plan->0->0;
            &&& own.target == PlanTarget::Tenant
            &&& own.state == PlanState::Active
            &&& own.organization_id is Some ==> own.organization_id->0@ == new_tenant.organization_id@
            &&& features_admitted(new_tenant.features, own.features)
        },
{
}

/// The creation of a tenant asks only for what it has not looked up yet, so it
/// comes to a verdict after at most four lookups.
pub proof fn lemma_tenant_creation_asks_for_missing_facts(new_tenant: NewTenant, facts: TenantCreationFacts)
    ensures
        tenant_creation_decision(new_tenant, facts) is FetchOrganization ==> facts.organization is None,
        tenant_creation_decision(new_tenant, facts) is FetchOrganizationPlan ==> facts.organization_plan is None,
        tenant_creation_decision(new_tenant, facts) is CountTenants ==> facts.tenant_count is None,
        tenant_creation_decision(new_tenant, facts) is FetchTenantPlan ==> facts.tenant_plan is None,
{
}

/// A tenant becomes active from another state only when its organization was
/// found and is active; and a command that changes a tenant's features is
/// applied only when the organization's plan, and the tenant's own plan if it
/// has one, admit them.
pub proof fn lemma_tenant_command_rules(tenant: TenantView, command: TenantCommand, facts: TenantCommandFacts)
    requires
        tenant_command_decision(tenant, command, facts) matches TenantCommandDecision::Done(Ok(()), _),
    ensures
        (command is UpdateState && command->UpdateState_state == TenantState::Active && tenant.state != TenantState::Active)
            ==> (facts.organization is Some && facts.organization->0 is Some
            && facts.organization->0->0.state == OrganizationState::Active),
        command is UpdateFeatures ==> {
            &&& facts.organization_plan is Some && facts.organization_plan->0 is Some
            &&& features_admitted(command->UpdateFeatures_features, facts.organization_plan->0->0.features)
            &&& tenant.plan_id is Some ==> (facts.tenant_plan is Some && facts.tenant_plan->0 is Some
                && features_admitted(command->UpdateFeatures_features, facts.tenant_plan->0->0.features))
        },
        (command is UpdatePlan && command->UpdatePlan_plan_id is Some) ==> (facts.tenant_plan is Some
            && facts.tenant_plan->0 is Some && tenant_plan_problem(
            facts.tenant_plan->0->0,
            tenant.organization_id,
            tenant.features,
            "Current tenant features exceed the new tenant plan"@,
        ) is None),
{
}

/// A tenant command asks only for what it has not looked up yet, so it comes
/// to a verdict after at most three lookups.
pub proof fn lemma_tenant_command_asks_for_missing_facts(tenant: TenantView, command: TenantCommand, facts: TenantCommandFacts)
    ensures
        tenant_command_decision(tenant, command, facts) is FetchOrganization ==> facts.organization is None,
        tenant_command_decision(tenant, command, facts) is FetchOrganizationPlan ==> facts.organization_plan is None,
        tenant_command_decision(tenant, command, facts) is FetchTenantPlan ==> facts.tenant_plan is None,
{
}

/// A tenant is created exactly when every check passes: its organization was
/// found and is active; the organization's plan was found and admits the
/// tenant's features; a positive tenant limit of that plan is not reached by the
/// counted tenants; and the tenant's own plan, when it names one, was found, is
/// an active tenant plan that admits the features, and is either bound to no
/// organization or bound to the tenant's own.
pub proof fn lemma_tenant_created_iff_checks_pass(new_tenant: NewTenant, facts: TenantCreationFacts)
    ensures
        tenant_creation_decision(new_tenant, facts) == TenantCreationDecision::Create <==> {
            &&& facts.organization is Some && facts.organization->0 is Some
            &&& facts.organization->0->0.state == OrganizationState::Active
            &&& facts.organization_plan is Some && facts.organization_plan->0 is Some
            &&& features_admitted(new_tenant.features, facts.organization_plan->0->0.features)
            &&& facts.organization_plan->0->0.limit_tenant > 0 ==> facts.tenant_count is Some
                && facts.tenant_count->0 < facts.organization_plan->0->0.limit_tenant
            &&& new_tenant.plan_id is Some ==> {
                &&& facts.tenant_plan is Some && facts.tenant_plan->0 is Some
                &&& facts.tenant_plan->0->0.target == PlanTarget::Tenant
                &&& facts.tenant_plan->0->0.state == PlanState::Active
                &&& facts.tenant_plan->0->0.organization_id is None
                    || facts.tenant_plan->0->0.organization_id->0@ == new_tenant.organization_id@
                &&& features_admitted(new_tenant.features, facts.tenant_plan->0->0.features)
            }
        },
{
}

/// Clearing a tenant's own plan needs no lookup and is always applied: the
/// tenant is left without a plan and everything else as it was, and nothing is
/// announced.
pub proof fn lemma_clearing_tenant_plan_is_applied(tenant: TenantView, facts: TenantCommandFacts)
    ensures
        tenant_command_decision(tenant, TenantCommand::UpdatePlan { plan_id: None }, facts)
            == TenantCommandDecision::Done(Ok(()), None),
        tenant_command_effect(tenant, TenantCommand::UpdatePlan { plan_id: None })
            == (TenantView { plan_id: None, ..tenant }),
{
}

} // verus!
