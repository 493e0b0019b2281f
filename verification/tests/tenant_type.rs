use tenant::domain::plans::plan_type::PlanFeatures;
use tenant::domain::tenant::tenant_error::TenantError;
use tenant::domain::tenant::tenant_type::TenantFeatures;

#[test]
fn test_validate_against_plan_allowed() {
    let plan_features = PlanFeatures { migration: true };
    let tenant_features = TenantFeatures { migration: true };
    assert!(tenant_features.validate_against_plan(&plan_features).is_ok());
}

#[test]
fn test_validate_against_plan_disallowed() {
    let plan_features = PlanFeatures { migration: false };
    let tenant_features = TenantFeatures { migration: false };
    let res = tenant_features.validate_against_plan(&plan_features);
    assert!(res.is_err());
}

#[test]
fn test_validate_against_plan_migration_disallowed() {
    let plan_features = PlanFeatures { migration: false };
    let tenant_features = TenantFeatures { migration: true };
    let res = tenant_features.validate_against_plan(&plan_features);
    assert!(res.is_err());
}

#[test]
fn validate_against_plan_names_the_feature() {
    let res = TenantFeatures { migration: true }.validate_against_plan(&PlanFeatures { migration: false });
    match res {
        Err(TenantError::FeatureNotAllowedByPlan(feature)) => assert_eq!(feature, "migration"),
        _ => panic!("expected a refusal naming the feature"),
    }
}

#[test]
fn plan_with_migration_admits_tenant_without_it() {
    let res = TenantFeatures { migration: false }.validate_against_plan(&PlanFeatures { migration: true });
    assert!(res.is_ok());
}

#[test]
fn features_default_to_no_migration() {
    assert!(!TenantFeatures::default().migration);
    assert!(!PlanFeatures::default().migration);
}
