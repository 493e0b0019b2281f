use tenant::domain::agency::agency_error::AgencyError;
use tenant::domain::organization::organization_error::OrganizationError;
use tenant::domain::plans::plan_error::PlanError;
use tenant::domain::tenant::tenant_error::TenantError;

#[test]
fn tenant_error_messages() {
    assert_eq!(TenantError::TenantNotFound.message(), "Tenant not found");
    assert_eq!(TenantError::TenantDocumentNotCreated.message(), "Tenant document not created");
    assert_eq!(TenantError::TenantDocNotUpdated.message(), "Tenant document not updated");
    assert_eq!(TenantError::EmptyName.message(), "Tenant name cannot be empty");
    assert_eq!(TenantError::RedisError("down".to_string()).message(), "Redis error: down");
    assert_eq!(TenantError::NotHasPermission.message(), "You do not have permission to perform this action");
    assert_eq!(TenantError::TenantMustBeInactiveToDelete.message(), "Tenant must be inactive before it can be deleted");
    assert_eq!(TenantError::OnlyOneActiveMainMenu.message(), "Only one main menu can be active at the same time");
    assert_eq!(TenantError::MenuNotFound.message(), "Menu not found");
    assert_eq!(TenantError::MenuItemNotFound.message(), "Menu item not found");
    assert_eq!(
        TenantError::FeatureNotAllowedByPlan("migration".to_string()).message(),
        "Feature 'migration' is not allowed by the organization's plan"
    );
    assert_eq!(
        TenantError::FeatureNotAllowedByTenantPlan("x".to_string()).message(),
        "Feature 'x' is not allowed by the tenant's plan"
    );
    assert_eq!(TenantError::TenantLimitReached.message(), "Tenant limit reached for this organization's plan");
    assert_eq!(TenantError::OrganizationNotFound.message(), "Organization not found");
    assert_eq!(TenantError::OrganizationInactive.message(), "Organization is inactive");
    assert_eq!(TenantError::PlanNotFound.message(), "Plan not found");
    assert_eq!(TenantError::TenantPlanNotFound.message(), "Tenant plan not found");
    assert_eq!(TenantError::TenantPlanInactive.message(), "Tenant plan is inactive");
    assert_eq!(
        TenantError::TenantPlanNotAllowedForOrganization.message(),
        "Tenant plan is not assigned to this organization"
    );
    assert_eq!(TenantError::InvalidTenantPlan("bad".to_string()).message(), "Invalid tenant plan: bad");
}

#[test]
fn agency_error_messages() {
    assert_eq!(AgencyError::AgencyNotFound.message(), "Agency not found");
    assert_eq!(AgencyError::AgencyDocumentNotCreated.message(), "Agency document not created");
    assert_eq!(AgencyError::AgencyDocNotUpdated.message(), "Agency document not updated");
    assert_eq!(AgencyError::EmptyName.message(), "Agency name cannot be empty");
    assert_eq!(AgencyError::RedisError("e".to_string()).message(), "Redis error: e");
    assert_eq!(AgencyError::NotHasPermission.message(), "You do not have permission to perform this action");
    assert_eq!(
        AgencyError::AgencyMustBeInactiveToDelete.message(),
        "Agency must be inactive before it can be deleted"
    );
}

#[test]
fn organization_error_messages() {
    assert_eq!(OrganizationError::OrganizationNotFound.message(), "Organization not found");
    assert_eq!(OrganizationError::OrganizationDocumentNotCreated.message(), "Organization document not created");
    assert_eq!(OrganizationError::OrganizationDocNotUpdated.message(), "Organization document not updated");
    assert_eq!(OrganizationError::EmptyName.message(), "Organization name cannot be empty");
    assert_eq!(OrganizationError::RedisError("e".to_string()).message(), "Redis error: e");
    assert_eq!(
        OrganizationError::NotHasPermission.message(),
        "You do not have permission to perform this action"
    );
    assert_eq!(
        OrganizationError::OrganizationMustBeInactiveToDelete.message(),
        "Organization must be inactive before it can be deleted"
    );
}

#[test]
fn plan_error_messages() {
    assert_eq!(PlanError::PlanNotFound.message(), "Plan not found");
    assert_eq!(PlanError::PlanDocumentNotCreated.message(), "Plan document not created");
    assert_eq!(PlanError::PlanDocNotUpdated.message(), "Plan document not updated");
    assert_eq!(PlanError::EmptyName.message(), "Plan name cannot be empty");
    assert_eq!(PlanError::RedisError("e".to_string()).message(), "Redis error: e");
    assert_eq!(PlanError::NotHasPermission.message(), "You do not have permission to perform this action");
    assert_eq!(PlanError::PlanInUse.message(), "Plan is in use and cannot be modified or deleted");
    assert_eq!(PlanError::PlanMustBeInactiveToDelete.message(), "Plan must be inactive before it can be deleted");
    assert_eq!(PlanError::OrganizationNotFound.message(), "Organization not found");
    assert_eq!(PlanError::InvalidBillingStrategy("sum".to_string()).message(), "Invalid billing strategy: sum");
}
