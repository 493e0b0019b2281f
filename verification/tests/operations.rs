use tenant::commands::agency_command::{AgencyCommand, AgencyState};
use tenant::commands::organization_command::{OrganizationCommand, OrganizationState};
use tenant::commands::plan_command::PlanCommand;
use tenant::commands::tenant_command::TenantCommand;
use tenant::domain::agency::agency_type::{AgencyLimits, NewAgency};
use tenant::domain::agency::AgencyEntity;
use tenant::domain::organization::organization_type::{NewOrganization, Organization, OrganizationLimits};
use tenant::domain::organization::OrganizationEntity;
use tenant::domain::plans::plan_error::PlanError;
use tenant::domain::plans::plan_type::{BillingStrategy, NewPlan, Plan, PlanFeatures, PlanState, PlanTarget};
use tenant::domain::plans::PlanEntity;
use tenant::domain::tenant::tenant_error::TenantError;
use tenant::domain::tenant::tenant_type::{
    NewTenant, Tenant, TenantColors, TenantConfiguration, TenantFeatures, TenantState,
};
use tenant::domain::tenant::TenantEntity;
use tenant::handlers::messages::{state_subject, EntityType};
use tenant::operation::agency_ops::{agency_deletion_check, apply_agency_command};
use tenant::operation::organization_ops::apply_organization_command;
use tenant::operation::plan_ops::{
    apply_plan_command, next_plan_creation_step, next_plan_deletion_step, PlanCommandStep, PlanCreationStep,
    PlanDeletionFacts, PlanDeletionStep, PlanFacts,
};
use tenant::operation::tenant_ops::{
    apply_tenant_command, next_tenant_creation_step, tenant_cache_key, tenant_cache_pattern, tenant_deletion_check, tenants_to_cascade,
    TenantCommandFacts, TenantCommandStep, TenantCreationFacts, TenantCreationStep,
};
use tenant::utils::domains_ids::EntityId;

fn id(last: u8) -> EntityId {
    EntityId { bytes: [0x50, 0x7f, 0x1f, 0x77, 0xbc, 0xf8, 0x6c, 0xd7, 0x99, 0x43, 0x90, last] }
}

fn configuration() -> TenantConfiguration {
    TenantConfiguration {
        logo: String::new(),
        colors: TenantColors {
            primary: "#fff".to_string(),
            secondary: "#000".to_string(),
            accent: "#f00".to_string(),
            background: "#eee".to_string(),
            text: "#111".to_string(),
        },
        theme: String::new(),
        menu_type: String::new(),
    }
}

fn new_tenant(plan_id: Option<EntityId>, migration: bool) -> NewTenant {
    NewTenant {
        host: "my-tenant.example.com".to_string(),
        name: "My Tenant".to_string(),
        organization_id: id(0x11),
        plan_id,
        configuration: configuration(),
        state: TenantState::Active,
        features: TenantFeatures { migration },
        default_language: String::new(),
        available_languages: vec![],
        menus: vec![],
    }
}

fn organization(state: OrganizationState) -> Organization {
    Organization {
        id: Some(id(0x11)),
        name: "Org".to_string(),
        plan: id(0x22),
        state,
        limits: OrganizationLimits { max_tenants: 5 },
    }
}

fn plan(target: PlanTarget, state: PlanState, migration: bool, limit_tenant: i32, organization_id: Option<EntityId>) -> Plan {
    Plan {
        id: Some(id(0x22)),
        name: "Plan".to_string(),
        price_bits: 0,
        limit_tenant,
        limit_users: 0,
        state,
        features: PlanFeatures { migration },
        target,
        organization_id,
        billing_strategy: None,
    }
}

fn no_creation_facts() -> TenantCreationFacts {
    TenantCreationFacts { organization: None, organization_plan: None, tenant_count: None, tenant_plan: None }
}

#[test]
fn tenant_creation_looks_up_in_order_then_creates() {
    let new = new_tenant(Some(id(0x33)), true);
    let mut facts = no_creation_facts();
    match next_tenant_creation_step(&new, &facts) {
        TenantCreationStep::FetchOrganization(o) => assert!(o.same_as(&id(0x11))),
        _ => panic!("organization first"),
    }
    facts.organization = Some(Some(organization(OrganizationState::Active)));
    match next_tenant_creation_step(&new, &facts) {
        TenantCreationStep::FetchOrganizationPlan(p) => assert!(p.same_as(&id(0x22))),
        _ => panic!("organization plan next"),
    }
    facts.organization_plan = Some(Some(plan(PlanTarget::Organization, PlanState::Active, true, 2, None)));
    assert!(matches!(next_tenant_creation_step(&new, &facts), TenantCreationStep::CountTenants(_)));
    facts.tenant_count = Some(1);
    match next_tenant_creation_step(&new, &facts) {
        TenantCreationStep::FetchTenantPlan(p) => assert!(p.same_as(&id(0x33))),
        _ => panic!("tenant plan next"),
    }
    facts.tenant_plan = Some(Some(plan(PlanTarget::Tenant, PlanState::Active, true, 0, Some(id(0x11)))));
    assert!(matches!(next_tenant_creation_step(&new, &facts), TenantCreationStep::Create));
}

#[test]
fn tenant_creation_refusals() {
    let new = new_tenant(None, true);
    let mut facts = no_creation_facts();
    facts.organization = Some(None);
    assert!(matches!(next_tenant_creation_step(&new, &facts), TenantCreationStep::Refuse(TenantError::OrganizationNotFound)));
    facts.organization = Some(Some(organization(OrganizationState::Inactive)));
    assert!(matches!(next_tenant_creation_step(&new, &facts), TenantCreationStep::Refuse(TenantError::OrganizationInactive)));
    facts.organization = Some(Some(organization(OrganizationState::Active)));
    facts.organization_plan = Some(None);
    assert!(matches!(next_tenant_creation_step(&new, &facts), TenantCreationStep::Refuse(TenantError::PlanNotFound)));
    facts.organization_plan = Some(Some(plan(PlanTarget::Organization, PlanState::Active, false, 0, None)));
    assert!(matches!(
        next_tenant_creation_step(&new, &facts),
        TenantCreationStep::Refuse(TenantError::FeatureNotAllowedByPlan(_))
    ));
    facts.organization_plan = Some(Some(plan(PlanTarget::Organization, PlanState::Active, true, 2, None)));
    facts.tenant_count = Some(2);
    assert!(matches!(next_tenant_creation_step(&new, &facts), TenantCreationStep::Refuse(TenantError::TenantLimitReached)));
    facts.organization_plan = Some(Some(plan(PlanTarget::Organization, PlanState::Active, true, 0, None)));
    assert!(matches!(next_tenant_creation_step(&new, &facts), TenantCreationStep::Create));
}

#[test]
fn tenant_plan_refusals_on_creation() {
    let new = new_tenant(Some(id(0x33)), true);
    let mut facts = no_creation_facts();
    facts.organization = Some(Some(organization(OrganizationState::Active)));
    facts.organization_plan = Some(Some(plan(PlanTarget::Organization, PlanState::Active, true, 0, None)));
    facts.tenant_plan = Some(None);
    assert!(matches!(next_tenant_creation_step(&new, &facts), TenantCreationStep::Refuse(TenantError::TenantPlanNotFound)));
    facts.tenant_plan = Some(Some(plan(PlanTarget::Organization, PlanState::Active, true, 0, None)));
    match next_tenant_creation_step(&new, &facts) {
        TenantCreationStep::Refuse(TenantError::InvalidTenantPlan(msg)) => assert_eq!(msg, "Selected plan is not a tenant plan"),
        _ => panic!("not a tenant plan"),
    }
    facts.tenant_plan = Some(Some(plan(PlanTarget::Tenant, PlanState::Inactive, true, 0, None)));
    assert!(matches!(next_tenant_creation_step(&new, &facts), TenantCreationStep::Refuse(TenantError::TenantPlanInactive)));
    facts.tenant_plan = Some(Some(plan(PlanTarget::Tenant, PlanState::Active, true, 0, Some(id(0x99)))));
    assert!(matches!(
        next_tenant_creation_step(&new, &facts),
        TenantCreationStep::Refuse(TenantError::TenantPlanNotAllowedForOrganization)
    ));
    facts.tenant_plan = Some(Some(plan(PlanTarget::Tenant, PlanState::Active, false, 0, None)));
    match next_tenant_creation_step(&new, &facts) {
        TenantCreationStep::Refuse(TenantError::FeatureNotAllowedByTenantPlan(msg)) => {
            assert_eq!(msg, "Feature not allowed by tenant plan")
        },
        _ => panic!("features not admitted"),
    }
}

fn stored_tenant(state: TenantState) -> TenantEntity {
    let mut props: Tenant = {
        let e = TenantEntity::new(new_tenant(None, true));
        let p = e.get_props();
        Tenant {
            id: Some(id(0x44)),
            host: p.host.clone(),
            name: p.name.clone(),
            organization_id: p.organization_id,
            plan_id: None,
            configuration: configuration(),
            state,
            features: p.features,
            default_language: String::new(),
            available_languages: vec![],
            menus: vec![],
        }
    };
    props.state = state;
    TenantEntity::from_props(props)
}

fn no_command_facts() -> TenantCommandFacts {
    TenantCommandFacts { organization: None, organization_plan: None, tenant_plan: None }
}

#[test]
fn activating_a_tenant_needs_an_active_organization() {
    let mut e = stored_tenant(TenantState::Inactive);
    let cmd = TenantCommand::UpdateState { state: TenantState::Active };
    let mut facts = no_command_facts();
    assert!(matches!(apply_tenant_command(&mut e, &cmd, &facts), TenantCommandStep::FetchOrganization(_)));
    facts.organization = Some(Some(organization(OrganizationState::Inactive)));
    assert!(matches!(
        apply_tenant_command(&mut e, &cmd, &facts),
        TenantCommandStep::Done(Err(TenantError::OrganizationInactive), None)
    ));
    assert_eq!(e.get_props().state, TenantState::Inactive);
    facts.organization = Some(Some(organization(OrganizationState::Active)));
    match apply_tenant_command(&mut e, &cmd, &facts) {
        TenantCommandStep::Done(Ok(()), Some(event)) => {
            assert_eq!(event.entity_type, EntityType::Tenant);
            assert_eq!(event.entity_id, "507f1f77bcf86cd799439044");
            assert_eq!(event.state, TenantState::Active);
            assert_eq!(state_subject(&event), "tenant.state.507f1f77bcf86cd799439044");
        },
        _ => panic!("expected the activation"),
    }
    assert_eq!(e.get_props().state, TenantState::Active);
}

#[test]
fn deactivating_needs_no_lookup_and_same_state_announces_nothing() {
    let mut e = stored_tenant(TenantState::Active);
    let facts = no_command_facts();
    assert!(matches!(
        apply_tenant_command(&mut e, &TenantCommand::UpdateState { state: TenantState::Active }, &facts),
        TenantCommandStep::Done(Ok(()), None)
    ));
    assert!(matches!(
        apply_tenant_command(&mut e, &TenantCommand::UpdateState { state: TenantState::Inactive }, &facts),
        TenantCommandStep::Done(Ok(()), Some(_))
    ));
}

#[test]
fn features_need_the_organization_plan() {
    let mut e = stored_tenant(TenantState::Active);
    let cmd = TenantCommand::UpdateFeatures { features: TenantFeatures { migration: false } };
    let mut facts = no_command_facts();
    facts.organization = Some(Some(organization(OrganizationState::Active)));
    assert!(matches!(apply_tenant_command(&mut e, &cmd, &facts), TenantCommandStep::FetchOrganizationPlan(_)));
    facts.organization_plan = Some(Some(plan(PlanTarget::Organization, PlanState::Active, false, 0, None)));
    assert!(matches!(
        apply_tenant_command(&mut e, &cmd, &facts),
        TenantCommandStep::Done(Err(TenantError::FeatureNotAllowedByPlan(_)), None)
    ));
    assert!(e.get_props().features.migration);
    facts.organization_plan = Some(Some(plan(PlanTarget::Organization, PlanState::Active, true, 0, None)));
    assert!(matches!(apply_tenant_command(&mut e, &cmd, &facts), TenantCommandStep::Done(Ok(()), None)));
    assert!(!e.get_props().features.migration);
}

#[test]
fn a_new_tenant_plan_is_checked_against_current_features() {
    let mut e = stored_tenant(TenantState::Active);
    let cmd = TenantCommand::UpdatePlan { plan_id: Some(id(0x55)) };
    let mut facts = no_command_facts();
    assert!(matches!(apply_tenant_command(&mut e, &cmd, &facts), TenantCommandStep::FetchTenantPlan(_)));
    facts.tenant_plan = Some(Some(plan(PlanTarget::Tenant, PlanState::Active, false, 0, None)));
    match apply_tenant_command(&mut e, &cmd, &facts) {
        TenantCommandStep::Done(Err(TenantError::FeatureNotAllowedByTenantPlan(msg)), None) => {
            assert_eq!(msg, "Current tenant features exceed the new tenant plan")
        },
        _ => panic!("expected the refusal"),
    }
    assert!(e.get_props().plan_id.is_none());
    facts.tenant_plan = Some(Some(plan(PlanTarget::Tenant, PlanState::Active, true, 0, None)));
    assert!(matches!(apply_tenant_command(&mut e, &cmd, &facts), TenantCommandStep::Done(Ok(()), None)));
    assert!(e.get_props().plan_id.unwrap().same_as(&id(0x55)));
}

#[test]
fn plain_tenant_commands() {
    let mut e = stored_tenant(TenantState::Active);
    let facts = no_command_facts();
    assert!(matches!(
        apply_tenant_command(&mut e, &TenantCommand::UpdateName { name: String::new() }, &facts),
        TenantCommandStep::Done(Err(TenantError::EmptyName), None)
    ));
    assert!(matches!(
        apply_tenant_command(&mut e, &TenantCommand::UpdateDefaultLanguage { default_language: "en".to_string() }, &facts),
        TenantCommandStep::Done(Ok(()), None)
    ));
    assert_eq!(e.get_props().default_language, "en");
}

#[test]
fn cache_keys() {
    assert_eq!(tenant_cache_key(&None, &None), "all_tenants");
    assert_eq!(tenant_cache_key(&Some("h".to_string()), &None), "all_tenants_h");
    assert_eq!(tenant_cache_key(&None, &Some(id(0x11))), "all_tenants_507f1f77bcf86cd799439011");
    assert_eq!(
        tenant_cache_key(&Some("h".to_string()), &Some(id(0x11))),
        "all_tenants_h_507f1f77bcf86cd799439011"
    );
}

#[test]
fn only_inactive_entities_are_deleted() {
    assert!(matches!(
        tenant_deletion_check(stored_tenant(TenantState::Trial).get_props()),
        Err(TenantError::TenantMustBeInactiveToDelete)
    ));
    assert!(tenant_deletion_check(stored_tenant(TenantState::Inactive).get_props()).is_ok());
    let a = AgencyEntity::new(NewAgency {
        name: "A".to_string(),
        plan: id(1),
        state: AgencyState::Inactive,
        limits: AgencyLimits { max_tenants: 1 },
        users: vec![],
    });
    assert!(agency_deletion_check(a.get_props()).is_ok());
}

#[test]
fn cascade_picks_tenants_in_another_state() {
    let tenants = vec![
        stored_tenant(TenantState::Active).get_props().duplicate(),
        stored_tenant(TenantState::Inactive).get_props().duplicate(),
        stored_tenant(TenantState::Trial).get_props().duplicate(),
    ];
    let ids = tenants_to_cascade(&tenants, TenantState::Inactive);
    assert_eq!(ids.len(), 2);
}

#[test]
fn agency_state_change_is_announced_and_cascaded() {
    let mut a = AgencyEntity::from_props(AgencyEntity::new(NewAgency {
        name: "A".to_string(),
        plan: id(1),
        state: AgencyState::Active,
        limits: AgencyLimits { max_tenants: 1 },
        users: vec![],
    }).get_props().duplicate());
    // give the agency an id, as stored agencies have
    let mut props = a.get_props().duplicate();
    props.id = Some(id(0x66));
    a = AgencyEntity::from_props(props);
    match apply_agency_command(&mut a, &AgencyCommand::UpdateState { state: AgencyState::Inactive }) {
        Ok(Some(cascade)) => {
            assert_eq!(cascade.tenant_state, TenantState::Inactive);
            assert_eq!(cascade.event.entity_type, EntityType::Agency);
            assert_eq!(cascade.event.entity_id, "507f1f77bcf86cd799439066");
        },
        _ => panic!("expected a cascade"),
    }
    assert!(matches!(apply_agency_command(&mut a, &AgencyCommand::UpdateState { state: AgencyState::Inactive }), Ok(None)));
    assert!(apply_agency_command(&mut a, &AgencyCommand::AddUser { user_id: "u".to_string() }).is_ok());
    assert_eq!(a.get_props().users.len(), 1);
}

#[test]
fn organization_state_change_is_cascaded() {
    let mut props = OrganizationEntity::new(NewOrganization {
        name: "O".to_string(),
        plan: id(1),
        state: OrganizationState::Inactive,
        limits: OrganizationLimits { max_tenants: 1 },
    }).get_props().duplicate();
    props.id = Some(id(0x77));
    let mut o = OrganizationEntity::from_props(props);
    match apply_organization_command(&mut o, &OrganizationCommand::UpdateState { state: OrganizationState::Active }) {
        Ok(Some(cascade)) => {
            assert_eq!(cascade.tenant_state, TenantState::Active);
            assert_eq!(state_subject(&cascade.event), "organization.state.507f1f77bcf86cd799439077");
        },
        _ => panic!("expected a cascade"),
    }
}

fn plan_request(target: PlanTarget, organization_id: Option<EntityId>, billing: Option<BillingStrategy>) -> NewPlan {
    NewPlan {
        name: "P".to_string(),
        price_bits: 10.0f64.to_bits(),
        limit_tenant: 0,
        limit_users: 0,
        state: PlanState::Active,
        features: PlanFeatures { migration: true },
        target,
        organization_id,
        billing_strategy: billing,
    }
}

#[test]
fn plan_creation_checks() {
    let mut facts = PlanFacts { organization_found: None, billing_check: None };
    let req = plan_request(PlanTarget::Tenant, Some(id(0x11)), Some(BillingStrategy::Company));
    assert!(matches!(next_plan_creation_step(&req, &facts), PlanCreationStep::CheckOrganization(_)));
    facts.organization_found = Some(false);
    assert!(matches!(next_plan_creation_step(&req, &facts), PlanCreationStep::Refuse(PlanError::OrganizationNotFound)));
    facts.organization_found = Some(true);
    assert!(matches!(next_plan_creation_step(&req, &facts), PlanCreationStep::ValidateBilling));
    facts.billing_check = Some(Err("bad".to_string()));
    assert!(matches!(next_plan_creation_step(&req, &facts), PlanCreationStep::Refuse(PlanError::InvalidBillingStrategy(_))));
    facts.billing_check = Some(Ok(()));
    assert!(matches!(next_plan_creation_step(&req, &facts), PlanCreationStep::Create));
    let org_plan = plan_request(PlanTarget::Organization, Some(id(0x11)), None);
    let none = PlanFacts { organization_found: None, billing_check: None };
    assert!(matches!(next_plan_creation_step(&org_plan, &none), PlanCreationStep::Create));
}

#[test]
fn plan_commands() {
    let mut p = PlanEntity::new(plan_request(PlanTarget::Tenant, None, None));
    let mut facts = PlanFacts { organization_found: None, billing_check: None };
    let cmd = PlanCommand::UpdateOrganizationId { organization_id: Some(id(0x11)) };
    assert!(matches!(apply_plan_command(&mut p, &cmd, &facts), PlanCommandStep::CheckOrganization(_)));
    facts.organization_found = Some(false);
    assert!(matches!(apply_plan_command(&mut p, &cmd, &facts), PlanCommandStep::Done(Err(PlanError::OrganizationNotFound))));
    assert!(p.get_props().organization_id.is_none());
    facts.organization_found = Some(true);
    assert!(matches!(apply_plan_command(&mut p, &cmd, &facts), PlanCommandStep::Done(Ok(()))));
    assert!(p.get_props().organization_id.is_some());
    let cmd = PlanCommand::UpdateBillingStrategy { billing_strategy: Some(BillingStrategy::Free) };
    assert!(matches!(apply_plan_command(&mut p, &cmd, &facts), PlanCommandStep::ValidateBilling));
    assert!(matches!(
        apply_plan_command(&mut p, &PlanCommand::UpdateState { state: PlanState::Inactive }, &facts),
        PlanCommandStep::Done(Ok(()))
    ));
    assert_eq!(p.get_props().state, PlanState::Inactive);
}

#[test]
fn plan_deletion_checks() {
    let active = plan(PlanTarget::Organization, PlanState::Active, true, 0, None);
    let none = PlanDeletionFacts { users: None };
    assert!(matches!(
        next_plan_deletion_step(&id(0x22), &active, &none),
        PlanDeletionStep::Refuse(PlanError::PlanMustBeInactiveToDelete)
    ));
    let org_plan = plan(PlanTarget::Organization, PlanState::Inactive, true, 0, None);
    assert!(matches!(next_plan_deletion_step(&id(0x22), &org_plan, &none), PlanDeletionStep::CountOrganizationsUsing(_)));
    let tenant_plan = plan(PlanTarget::Tenant, PlanState::Inactive, true, 0, None);
    assert!(matches!(next_plan_deletion_step(&id(0x22), &tenant_plan, &none), PlanDeletionStep::CountTenantsUsing(_)));
    let used = PlanDeletionFacts { users: Some(Some(3)) };
    assert!(matches!(next_plan_deletion_step(&id(0x22), &tenant_plan, &used), PlanDeletionStep::Refuse(PlanError::PlanInUse)));
    let failed = PlanDeletionFacts { users: Some(None) };
    assert!(matches!(next_plan_deletion_step(&id(0x22), &tenant_plan, &failed), PlanDeletionStep::Refuse(PlanError::PlanNotFound)));
    let unused = PlanDeletionFacts { users: Some(Some(0)) };
    assert!(matches!(next_plan_deletion_step(&id(0x22), &tenant_plan, &unused), PlanDeletionStep::Delete));
}

#[test]
fn every_cache_key_falls_under_the_pattern() {
    let pattern = tenant_cache_pattern();
    assert_eq!(pattern, "all_tenants*");
    let prefix = pattern.trim_end_matches('*');
    for key in [
        tenant_cache_key(&None, &None),
        tenant_cache_key(&Some("shop".to_string()), &None),
        tenant_cache_key(&None, &Some(id(3))),
        tenant_cache_key(&Some("shop".to_string()), &Some(id(3))),
    ] {
        assert!(key.starts_with(prefix));
    }
}
