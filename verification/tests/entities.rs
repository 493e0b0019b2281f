use tenant::commands::agency_command::AgencyState;
use tenant::commands::organization_command::OrganizationState;
use tenant::domain::agency::agency_error::AgencyError;
use tenant::domain::agency::agency_type::{AgencyLimits, NewAgency};
use tenant::domain::agency::AgencyEntity;
use tenant::domain::organization::organization_error::OrganizationError;
use tenant::domain::organization::organization_type::{NewOrganization, OrganizationLimits};
use tenant::domain::organization::OrganizationEntity;
use tenant::domain::plans::plan_error::PlanError;
use tenant::domain::plans::plan_type::{
    default_plan_target, BillingStrategy, NewPlan, PlanFeatures, PlanState, PlanTarget,
};
use tenant::domain::plans::PlanEntity;
use tenant::utils::domains_ids::EntityId;

fn id(last: u8) -> EntityId {
    EntityId { bytes: [1, 2, 3, 4, 5, 6, 7, 8, 9, 10, 11, last] }
}

fn agency() -> AgencyEntity {
    AgencyEntity::new(NewAgency {
        name: "Agency".to_string(),
        plan: id(1),
        state: AgencyState::Active,
        limits: AgencyLimits { max_tenants: 3 },
        users: vec!["ana".to_string()],
    })
}

#[test]
fn agency_users_are_not_repeated() {
    let mut a = agency();
    assert!(a.add_user("ana".to_string()).is_ok());
    assert!(a.add_user("luis".to_string()).is_ok());
    assert!(a.add_user("luis".to_string()).is_ok());
    assert_eq!(a.get_props().users, vec!["ana".to_string(), "luis".to_string()]);
}

#[test]
fn removing_a_user_removes_every_occurrence() {
    let mut a = AgencyEntity::new(NewAgency {
        name: "A".to_string(),
        plan: id(1),
        state: AgencyState::Active,
        limits: AgencyLimits { max_tenants: 0 },
        users: vec!["x".to_string(), "y".to_string(), "x".to_string()],
    });
    assert!(a.remove_user("x".to_string()).is_ok());
    assert_eq!(a.get_props().users, vec!["y".to_string()]);
    assert!(a.remove_user("nobody".to_string()).is_ok());
    assert_eq!(a.get_props().users, vec!["y".to_string()]);
}

#[test]
fn empty_names_are_refused_everywhere() {
    let mut a = agency();
    assert!(matches!(a.update_name(String::new()), Err(AgencyError::EmptyName)));
    assert_eq!(a.get_props().name, "Agency");
    assert!(a.update_name("Other".to_string()).is_ok());
    assert_eq!(a.get_props().name, "Other");

    let mut o = OrganizationEntity::new(NewOrganization {
        name: "Org".to_string(),
        plan: id(2),
        state: OrganizationState::Active,
        limits: OrganizationLimits { max_tenants: 1 },
    });
    assert!(matches!(o.update_name(String::new()), Err(OrganizationError::EmptyName)));
    assert!(o.update_state(OrganizationState::Inactive).is_ok());
    assert_eq!(o.get_props().state, OrganizationState::Inactive);
    assert!(o.get_props().id.is_none());
}

fn new_plan() -> NewPlan {
    NewPlan {
        name: "Basic".to_string(),
        price_bits: 99.0f64.to_bits(),
        limit_tenant: 10,
        limit_users: 50,
        state: PlanState::Active,
        features: PlanFeatures { migration: false },
        target: default_plan_target(),
        organization_id: None,
        billing_strategy: None,
    }
}

#[test]
fn the_default_plan_target_is_organization() {
    assert_eq!(default_plan_target(), PlanTarget::Organization);
}

#[test]
fn plan_updates() {
    let mut p = PlanEntity::new(new_plan());
    assert!(matches!(p.update_name(String::new()), Err(PlanError::EmptyName)));
    assert!(p.update_price(120.5f64.to_bits()).is_ok());
    assert_eq!(f64::from_bits(p.get_props().price_bits), 120.5);
    assert!(p.update_limits(2, 3).is_ok());
    assert_eq!((p.get_props().limit_tenant, p.get_props().limit_users), (2, 3));
    assert!(p.update_target(PlanTarget::Tenant).is_ok());
    assert!(p.update_organization_id(Some(id(9))).is_ok());
    assert!(p.get_props().organization_id.unwrap().same_as(&id(9)));
}

#[test]
fn a_billing_strategy_that_failed_its_check_is_refused() {
    let mut p = PlanEntity::new(new_plan());
    let split = BillingStrategy::Split {
        organization_percentage_bits: 50.0f64.to_bits(),
        company_percentage_bits: 40.0f64.to_bits(),
    };
    let res = p.update_billing_strategy(Some(split), Err("Split percentages must sum to 100%".to_string()));
    match res {
        Err(PlanError::InvalidBillingStrategy(msg)) => assert_eq!(msg, "Split percentages must sum to 100%"),
        _ => panic!("expected a refusal"),
    }
    assert!(p.get_props().billing_strategy.is_none());
    assert!(p.update_billing_strategy(Some(BillingStrategy::Free), Ok(())).is_ok());
    assert_eq!(p.get_props().billing_strategy, Some(BillingStrategy::Free));
    assert!(p.update_billing_strategy(None, Err("ignored".to_string())).is_ok());
    assert!(p.get_props().billing_strategy.is_none());
}

#[test]
fn removing_a_new_user_restores_the_users() {
    let mut a = agency();
    assert!(a.add_user("marta".to_string()).is_ok());
    assert!(a.remove_user("marta".to_string()).is_ok());
    assert_eq!(a.get_props().users, vec!["ana".to_string()]);
}
