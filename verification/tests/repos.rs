use tenant::commands::agency_command::AgencyState;
use tenant::data::access::store::WriteReport;
use tenant::data::access::{agency_repo, organization_repo, plan_repo, tenant_repo};
use tenant::domain::agency::agency_error::AgencyError;
use tenant::domain::agency::agency_type::{Agency, AgencyLimits};
use tenant::domain::organization::organization_error::OrganizationError;
use tenant::domain::plans::plan_error::PlanError;
use tenant::domain::tenant::tenant_error::TenantError;
use tenant::utils::domains_ids::EntityId;

fn id(last: u8) -> EntityId {
    EntityId { bytes: [9, 9, 9, 9, 9, 9, 9, 9, 9, 9, 9, last] }
}

fn agency(id: Option<EntityId>) -> Agency {
    Agency {
        id,
        name: "North".to_string(),
        plan: EntityId { bytes: [1; 12] },
        state: AgencyState::Active,
        limits: AgencyLimits { max_tenants: 2 },
        users: vec!["ana".to_string()],
    }
}

#[test]
fn a_stored_agency_keeps_its_id() {
    let stored = agency_repo::assign_new_id(agency(Some(id(4))));
    assert_eq!(stored.id.map(|i| i.bytes), Some(id(4).bytes));
    assert_eq!(stored.name, "North");
}

#[test]
fn a_new_agency_gets_an_id() {
    let stored = agency_repo::assign_new_id(agency(None));
    assert!(stored.id.is_some());
    assert_eq!(stored.users, vec!["ana".to_string()]);
}

#[test]
fn fresh_ids_differ() {
    assert_ne!(EntityId::new().bytes, EntityId::new().bytes);
}

#[test]
fn an_agency_without_id_cannot_be_saved() {
    assert!(matches!(agency_repo::save_target(&agency(None)), Err(AgencyError::AgencyNotFound)));
    assert_eq!(agency_repo::save_target(&agency(Some(id(7)))).unwrap().bytes, id(7).bytes);
}

#[test]
fn save_answers_follow_the_update_report() {
    let saved = agency_repo::save_outcome(agency(Some(id(1))), WriteReport::Reached(1)).unwrap();
    assert_eq!(saved.name, "North");
    assert!(matches!(
        agency_repo::save_outcome(agency(Some(id(1))), WriteReport::Reached(0)),
        Err(AgencyError::AgencyNotFound)
    ));
    assert!(matches!(
        agency_repo::save_outcome(agency(Some(id(1))), WriteReport::Failed),
        Err(AgencyError::AgencyDocNotUpdated)
    ));
}

#[test]
fn delete_answers_follow_the_removal_report() {
    assert!(organization_repo::delete_outcome(WriteReport::Reached(1)).is_ok());
    assert!(matches!(
        organization_repo::delete_outcome(WriteReport::Reached(0)),
        Err(OrganizationError::OrganizationNotFound)
    ));
    assert!(matches!(organization_repo::delete_outcome(WriteReport::Failed), Err(OrganizationError::OrganizationNotFound)));
    assert!(matches!(plan_repo::delete_outcome(WriteReport::Failed), Err(PlanError::PlanNotFound)));
    assert!(matches!(tenant_repo::delete_outcome(WriteReport::Reached(0)), Err(TenantError::TenantNotFound)));
    assert!(tenant_repo::delete_outcome(WriteReport::Reached(2)).is_ok());
}

#[test]
fn lookup_host_drops_surrounding_white_space() {
    assert_eq!(tenant_repo::lookup_host("  shop.example.com\t\n"), "shop.example.com");
    assert_eq!(tenant_repo::lookup_host("\u{3000}a b\u{a0}"), "a b");
    assert_eq!(tenant_repo::lookup_host("   "), "");
    assert_eq!(tenant_repo::lookup_host("plain"), "plain");
}
