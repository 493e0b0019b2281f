//! The ways an operation on plans can fail.
use vstd::prelude::*;

verus! {

#[derive(Clone, Debug)]
pub enum PlanError {
    PlanNotFound,
    PlanDocumentNotCreated,
    PlanDocNotUpdated,
    EmptyName,
    RedisError(String),
    NotHasPermission,
    PlanInUse,
    PlanMustBeInactiveToDelete,
    OrganizationNotFound,
    InvalidBillingStrategy(String),
}

/// What a PlanError holds: its variant and, for some, a text.
pub ghost enum PlanErrorView {
    PlanNotFound,
    PlanDocumentNotCreated,
    PlanDocNotUpdated,
    EmptyName,
    RedisError(Seq<char>),
    NotHasPermission,
    PlanInUse,
    PlanMustBeInactiveToDelete,
    OrganizationNotFound,
    InvalidBillingStrategy(Seq<char>),
}

impl View for PlanError {
    type V = PlanErrorView;

    open spec fn view(&self) -> PlanErrorView {
        match self {
            PlanError::PlanNotFound => PlanErrorView::PlanNotFound,
            PlanError::PlanDocumentNotCreated => PlanErrorView::PlanDocumentNotCreated,
            PlanError::PlanDocNotUpdated => PlanErrorView::PlanDocNotUpdated,
            PlanError::EmptyName => PlanErrorView::EmptyName,
            PlanError::RedisError(detail) => PlanErrorView::RedisError(detail@),
            PlanError::NotHasPermission => PlanErrorView::NotHasPermission,
            PlanError::PlanInUse => PlanErrorView::PlanInUse,
            PlanError::PlanMustBeInactiveToDelete => PlanErrorView::PlanMustBeInactiveToDelete,
            PlanError::OrganizationNotFound => PlanErrorView::OrganizationNotFound,
            PlanError::InvalidBillingStrategy(detail) => PlanErrorView::InvalidBillingStrategy(detail@),
        }
    }
}

impl PlanError {
    /// The text that the error is shown as.
    pub open spec fn message_spec(&self) -> Seq<char> {
        match self {
            PlanError::PlanNotFound => "Plan not found"@,
            PlanError::PlanDocumentNotCreated => "Plan document not created"@,
            PlanError::PlanDocNotUpdated => "Plan document not updated"@,
            PlanError::EmptyName => "Plan name cannot be empty"@,
            PlanError::RedisError(detail) => "Redis error: "@ + detail@,
            PlanError::NotHasPermission => "You do not have permission to perform this action"@,
            PlanError::PlanInUse => "Plan is in use and cannot be modified or deleted"@,
            PlanError::PlanMustBeInactiveToDelete => "Plan must be inactive before it can be deleted"@,
            PlanError::OrganizationNotFound => "Organization not found"@,
            PlanError::InvalidBillingStrategy(detail) => "Invalid billing strategy: "@ + detail@,
        }
    }

    /// The text that the error is shown as.
    pub fn message(&self) -> (text: String)
        ensures
            text@ == self.message_spec(),
    {
        match self {
            PlanError::PlanNotFound => "Plan not found".to_owned(),
            PlanError::PlanDocumentNotCreated => "Plan document not created".to_owned(),
            PlanError::PlanDocNotUpdated => "Plan document not updated".to_owned(),
            PlanError::EmptyName => "Plan name cannot be empty".to_owned(),
            PlanError::RedisError(detail) => "Redis error: ".to_owned().concat(detail.as_str()),
            PlanError::NotHasPermission => "You do not have permission to perform this action".to_owned(),
            PlanError::PlanInUse => "Plan is in use and cannot be modified or deleted".to_owned(),
            PlanError::PlanMustBeInactiveToDelete => "Plan must be inactive before it can be deleted".to_owned(),
            PlanError::OrganizationNotFound => "Organization not found".to_owned(),
            PlanError::InvalidBillingStrategy(detail) => "Invalid billing strategy: ".to_owned().concat(detail.as_str()),
        }
    }
}

/// A failure of the document store reads as the entity not being found.
impl From<mongodb::error::Error> for PlanError {
    fn from(_err: mongodb::error::Error) -> (res: Self) {
        PlanError::PlanNotFound
    }
}

impl vstd::std_specs::convert::FromSpecImpl<mongodb::error::Error> for PlanError {
    open spec fn obeys_from_spec() -> bool {
        true
    }

    open spec fn from_spec(v: mongodb::error::Error) -> Self {
        PlanError::PlanNotFound
    }
}

/// A document that does not decode reads as the entity not being found.
impl From<mongodb::bson::de::Error> for PlanError {
    fn from(_err: mongodb::bson::de::Error) -> (res: Self) {
        PlanError::PlanNotFound
    }
}

impl vstd::std_specs::convert::FromSpecImpl<mongodb::bson::de::Error> for PlanError {
    open spec fn obeys_from_spec() -> bool {
        true
    }

    open spec fn from_spec(v: mongodb::bson::de::Error) -> Self {
        PlanError::PlanNotFound
    }
}

} // verus!
