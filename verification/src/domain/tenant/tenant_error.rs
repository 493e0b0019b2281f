//! The ways an operation on tenants can fail.
use vstd::prelude::*;

verus! {

#[derive(Clone, Debug)]
pub enum TenantError {
    TenantNotFound,
    TenantDocumentNotCreated,
    TenantDocNotUpdated,
    EmptyName,
    RedisError(String),
    NotHasPermission,
    TenantMustBeInactiveToDelete,
    OnlyOneActiveMainMenu,
    MenuNotFound,
    MenuItemNotFound,
    FeatureNotAllowedByPlan(String),
    FeatureNotAllowedByTenantPlan(String),
    TenantLimitReached,
    OrganizationNotFound,
    OrganizationInactive,
    PlanNotFound,
    TenantPlanNotFound,
    TenantPlanInactive,
    TenantPlanNotAllowedForOrganization,
    InvalidTenantPlan(String),
}

/// What a TenantError holds: its variant and, for some, a text.
pub ghost enum TenantErrorView {
    TenantNotFound,
    TenantDocumentNotCreated,
    TenantDocNotUpdated,
    EmptyName,
    RedisError(Seq<char>),
    NotHasPermission,
    TenantMustBeInactiveToDelete,
    OnlyOneActiveMainMenu,
    MenuNotFound,
    MenuItemNotFound,
    FeatureNotAllowedByPlan(Seq<char>),
    FeatureNotAllowedByTenantPlan(Seq<char>),
    TenantLimitReached,
    OrganizationNotFound,
    OrganizationInactive,
    PlanNotFound,
    TenantPlanNotFound,
    TenantPlanInactive,
    TenantPlanNotAllowedForOrganization,
    InvalidTenantPlan(Seq<char>),
}

impl View for TenantError {
    type V = TenantErrorView;

    open spec fn view(&self) -> TenantErrorView {
        match self {
            TenantError::TenantNotFound => TenantErrorView::TenantNotFound,
            TenantError::TenantDocumentNotCreated => TenantErrorView::TenantDocumentNotCreated,
            TenantError::TenantDocNotUpdated => TenantErrorView::TenantDocNotUpdated,
            TenantError::EmptyName => TenantErrorView::EmptyName,
            TenantError::RedisError(detail) => TenantErrorView::RedisError(detail@),
            TenantError::NotHasPermission => TenantErrorView::NotHasPermission,
            TenantError::TenantMustBeInactiveToDelete => TenantErrorView::TenantMustBeInactiveToDelete,
            TenantError::OnlyOneActiveMainMenu => TenantErrorView::OnlyOneActiveMainMenu,
            TenantError::MenuNotFound => TenantErrorView::MenuNotFound,
            TenantError::MenuItemNotFound => TenantErrorView::MenuItemNotFound,
            TenantError::FeatureNotAllowedByPlan(detail) => TenantErrorView::FeatureNotAllowedByPlan(detail@),
            TenantError::FeatureNotAllowedByTenantPlan(detail) => TenantErrorView::FeatureNotAllowedByTenantPlan(detail@),
            TenantError::TenantLimitReached => TenantErrorView::TenantLimitReached,
            TenantError::OrganizationNotFound => TenantErrorView::OrganizationNotFound,
            TenantError::OrganizationInactive => TenantErrorView::OrganizationInactive,
            TenantError::PlanNotFound => TenantErrorView::PlanNotFound,
            TenantError::TenantPlanNotFound => TenantErrorView::TenantPlanNotFound,
            TenantError::TenantPlanInactive => TenantErrorView::TenantPlanInactive,
            TenantError::TenantPlanNotAllowedForOrganization => TenantErrorView::TenantPlanNotAllowedForOrganization,
            TenantError::InvalidTenantPlan(detail) => TenantErrorView::InvalidTenantPlan(detail@),
        }
    }
}

impl TenantError {
    /// The text that the error is shown as.
    pub open spec fn message_spec(&self) -> Seq<char> {
        match self {
            TenantError::TenantNotFound => "Tenant not found"@,
            TenantError::TenantDocumentNotCreated => "Tenant document not created"@,
            TenantError::TenantDocNotUpdated => "Tenant document not updated"@,
            TenantError::EmptyName => "Tenant name cannot be empty"@,
            TenantError::RedisError(detail) => "Redis error: "@ + detail@,
            TenantError::NotHasPermission => "You do not have permission to perform this action"@,
            TenantError::TenantMustBeInactiveToDelete => "Tenant must be inactive before it can be deleted"@,
            TenantError::OnlyOneActiveMainMenu => "Only one main menu can be active at the same time"@,
            TenantError::MenuNotFound => "Menu not found"@,
            TenantError::MenuItemNotFound => "Menu item not found"@,
            TenantError::FeatureNotAllowedByPlan(detail) => "Feature '"@ + detail@ + "' is not allowed by the organization's plan"@,
            TenantError::FeatureNotAllowedByTenantPlan(detail) => "Feature '"@ + detail@ + "' is not allowed by the tenant's plan"@,
            TenantError::TenantLimitReached => "Tenant limit reached for this organization's plan"@,
            TenantError::OrganizationNotFound => "Organization not found"@,
            TenantError::OrganizationInactive => "Organization is inactive"@,
            TenantError::PlanNotFound => "Plan not found"@,
            TenantError::TenantPlanNotFound => "Tenant plan not found"@,
            TenantError::TenantPlanInactive => "Tenant plan is inactive"@,
            TenantError::TenantPlanNotAllowedForOrganization => "Tenant plan is not assigned to this organization"@,
            TenantError::InvalidTenantPlan(detail) => "Invalid tenant plan: "@ + detail@,
        }
    }

    /// The text that the error is shown as.
    pub fn message(&self) -> (text: String)
        ensures
            text@ == self.message_spec(),
    {
        match self {
            TenantError::TenantNotFound => "Tenant not found".to_owned(),
            TenantError::TenantDocumentNotCreated => "Tenant document not created".to_owned(),
            TenantError::TenantDocNotUpdated => "Tenant document not updated".to_owned(),
            TenantError::EmptyName => "Tenant name cannot be empty".to_owned(),
            TenantError::RedisError(detail) => "Redis error: ".to_owned().concat(detail.as_str()),
            TenantError::NotHasPermission => "You do not have permission to perform this action".to_owned(),
            TenantError::TenantMustBeInactiveToDelete => "Tenant must be inactive before it can be deleted".to_owned(),
            TenantError::OnlyOneActiveMainMenu => "Only one main menu can be active at the same time".to_owned(),
            TenantError::MenuNotFound => "Menu not found".to_owned(),
            TenantError::MenuItemNotFound => "Menu item not found".to_owned(),
            TenantError::FeatureNotAllowedByPlan(detail) => "Feature '".to_owned().concat(detail.as_str()).concat("' is not allowed by the organization's plan"),
            TenantError::FeatureNotAllowedByTenantPlan(detail) => "Feature '".to_owned().concat(detail.as_str()).concat("' is not allowed by the tenant's plan"),
            TenantError::TenantLimitReached => "Tenant limit reached for this organization's plan".to_owned(),
            TenantError::OrganizationNotFound => "Organization not found".to_owned(),
            TenantError::OrganizationInactive => "Organization is inactive".to_owned(),
            TenantError::PlanNotFound => "Plan not found".to_owned(),
            TenantError::TenantPlanNotFound => "Tenant plan not found".to_owned(),
            TenantError::TenantPlanInactive => "Tenant plan is inactive".to_owned(),
            TenantError::TenantPlanNotAllowedForOrganization => "Tenant plan is not assigned to this organization".to_owned(),
            TenantError::InvalidTenantPlan(detail) => "Invalid tenant plan: ".to_owned().concat(detail.as_str()),
        }
    }
}

/// A failure of the document store reads as the entity not being found.
impl From<mongodb::error::Error> for TenantError {
    fn from(_err: mongodb::error::Error) -> (res: Self) {
        TenantError::TenantNotFound
    }
}

impl vstd::std_specs::convert::FromSpecImpl<mongodb::error::Error> for TenantError {
    open spec fn obeys_from_spec() -> bool {
        true
    }

    open spec fn from_spec(v: mongodb::error::Error) -> Self {
        TenantError::TenantNotFound
    }
}

} // verus!
