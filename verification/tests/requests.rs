use tenant::data::access::migration::mongo::v01::Migration001;
use tenant::domain::tenant::tenant_type::{NewTenant, TenantColors, TenantConfiguration, TenantFeatures, TenantState};
use tenant::handlers::http::tenant::tenant_routes::{
    apply_hub_host, get_effective_tenant_id, hub_host_filter, tenant_reference, TenantReference,
};
use tenant::handlers::messages::{tenant_created_event, tenant_created_subject};
use tenant::domain::tenant::TenantEntity;
use tenant::utils::domains_ids::EntityId;
use tenant::utils::hub_context::HubContext;

fn hub(tenant_id: &str) -> HubContext {
    HubContext { tenant_id: tenant_id.to_string(), user_id: "u".to_string(), user_role: "admin".to_string() }
}

#[test]
fn effective_tenant_prefers_path_then_query_then_hub() {
    assert_eq!(get_effective_tenant_id(Some("p".to_string()), Some("q".to_string()), &hub("h")), Some("p".to_string()));
    assert_eq!(get_effective_tenant_id(Some(String::new()), Some("q".to_string()), &hub("h")), Some("q".to_string()));
    assert_eq!(get_effective_tenant_id(None, Some(String::new()), &hub("h")), Some("h".to_string()));
    assert_eq!(get_effective_tenant_id(None, None, &hub("")), None);
}

fn new_tenant(host: &str) -> NewTenant {
    NewTenant {
        host: host.to_string(),
        name: "T".to_string(),
        organization_id: EntityId { bytes: [1; 12] },
        plan_id: None,
        configuration: TenantConfiguration {
            logo: String::new(),
            colors: TenantColors {
                primary: String::new(),
                secondary: String::new(),
                accent: String::new(),
                background: String::new(),
                text: String::new(),
            },
            theme: String::new(),
            menu_type: String::new(),
        },
        state: TenantState::Active,
        features: TenantFeatures { migration: false },
        default_language: String::new(),
        available_languages: vec!["es".to_string(), "en".to_string()],
        menus: vec![],
    }
}

#[test]
fn the_hub_fills_an_empty_host_only() {
    let mut t = new_tenant("");
    apply_hub_host(&mut t, &hub("from-hub"));
    assert_eq!(t.host, "from-hub");
    let mut t = new_tenant("given");
    apply_hub_host(&mut t, &hub("from-hub"));
    assert_eq!(t.host, "given");
    let mut t = new_tenant("");
    apply_hub_host(&mut t, &hub(""));
    assert_eq!(t.host, "");
}

#[test]
fn listing_is_narrowed_to_the_hub_tenant() {
    assert_eq!(hub_host_filter(&hub("")), None);
    assert_eq!(hub_host_filter(&hub("shop")), Some("shop".to_string()));
}

#[test]
fn a_reference_is_an_id_or_a_host() {
    match tenant_reference("507f1f77bcf86cd799439011".to_string()) {
        TenantReference::Id(id) => assert_eq!(id.to_hex(), "507f1f77bcf86cd799439011"),
        TenantReference::Host(_) => panic!("expected an id"),
    }
    match tenant_reference("shop.example.com".to_string()) {
        TenantReference::Host(h) => assert_eq!(h, "shop.example.com"),
        TenantReference::Id(_) => panic!("expected a host"),
    }
}

#[test]
fn created_tenants_are_announced_with_hex_ids() {
    let entity = TenantEntity::new(new_tenant("h"));
    assert!(tenant_created_event(entity.get_props()).is_none());
    let mut props = entity.get_props().duplicate();
    props.id = Some(EntityId { bytes: [0xab; 12] });
    props.plan_id = Some(EntityId { bytes: [0x01; 12] });
    let event = tenant_created_event(&props).expect("announced");
    assert_eq!(event.tenant_id, "abababababababababababab");
    assert_eq!(event.organization_id, "010101010101010101010101");
    assert_eq!(event.plan_id, Some("010101010101010101010101".to_string()));
    assert_eq!(event.available_languages, vec!["es".to_string(), "en".to_string()]);
    assert_eq!(tenant_created_subject(), "tenant.created");
}

#[test]
fn the_first_migration() {
    let m = Migration001;
    assert_eq!(m.name(), "001_initial_collections");
    assert_eq!(m.collections(), vec!["agency".to_string(), "tenant".to_string(), "migrations".to_string(), "plans".to_string()]);
    assert!(m.tolerates_creation_error("Command failed: collection already exists"));
    assert!(m.tolerates_creation_error("already exists"));
    assert!(!m.tolerates_creation_error("already exist"));
    assert!(!m.tolerates_creation_error(""));
}
