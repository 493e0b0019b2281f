//! The ways an operation on organizations can fail.
use vstd::prelude::*;

verus! {

#[derive(Clone, Debug)]
pub enum OrganizationError {
    OrganizationNotFound,
    OrganizationDocumentNotCreated,
    OrganizationDocNotUpdated,
    EmptyName,
    RedisError(String),
    NotHasPermission,
    OrganizationMustBeInactiveToDelete,
}

/// What a OrganizationError holds: its variant and, for some, a text.
pub ghost enum OrganizationErrorView {
    OrganizationNotFound,
    OrganizationDocumentNotCreated,
    OrganizationDocNotUpdated,
    EmptyName,
    RedisError(Seq<char>),
    NotHasPermission,
    OrganizationMustBeInactiveToDelete,
}

impl View for OrganizationError {
    type V = OrganizationErrorView;

    open spec fn view(&self) -> OrganizationErrorView {
        match self {
            OrganizationError::OrganizationNotFound => OrganizationErrorView::OrganizationNotFound,
            OrganizationError::OrganizationDocumentNotCreated => OrganizationErrorView::OrganizationDocumentNotCreated,
            OrganizationError::OrganizationDocNotUpdated => OrganizationErrorView::OrganizationDocNotUpdated,
            OrganizationError::EmptyName => OrganizationErrorView::EmptyName,
            OrganizationError::RedisError(detail) => OrganizationErrorView::RedisError(detail@),
            OrganizationError::NotHasPermission => OrganizationErrorView::NotHasPermission,
            OrganizationError::OrganizationMustBeInactiveToDelete => OrganizationErrorView::OrganizationMustBeInactiveToDelete,
        }
    }
}

impl OrganizationError {
    /// The text that the error is shown as.
    pub open spec fn message_spec(&self) -> Seq<char> {
        match self {
            OrganizationError::OrganizationNotFound => "Organization not found"@,
            OrganizationError::OrganizationDocumentNotCreated => "Organization document not created"@,
            OrganizationError::OrganizationDocNotUpdated => "Organization document not updated"@,
            OrganizationError::EmptyName => "Organization name cannot be empty"@,
            OrganizationError::RedisError(detail) => "Redis error: "@ + detail@,
            OrganizationError::NotHasPermission => "You do not have permission to perform this action"@,
            OrganizationError::OrganizationMustBeInactiveToDelete => "Organization must be inactive before it can be deleted"@,
        }
    }

    /// The text that the error is shown as.
    pub fn message(&self) -> (text: String)
        ensures
            text@ == self.message_spec(),
    {
        match self {
            OrganizationError::OrganizationNotFound => "Organization not found".to_owned(),
            OrganizationError::OrganizationDocumentNotCreated => "Organization document not created".to_owned(),
            OrganizationError::OrganizationDocNotUpdated => "Organization document not updated".to_owned(),
            OrganizationError::EmptyName => "Organization name cannot be empty".to_owned(),
            OrganizationError::RedisError(detail) => "Redis error: ".to_owned().concat(detail.as_str()),
            OrganizationError::NotHasPermission => "You do not have permission to perform this action".to_owned(),
            OrganizationError::OrganizationMustBeInactiveToDelete => "Organization must be inactive before it can be deleted".to_owned(),
        }
    }
}

/// A failure of the document store reads as the entity not being found.
impl From<mongodb::error::Error> for OrganizationError {
    fn from(_err: mongodb::error::Error) -> (res: Self) {
        OrganizationError::OrganizationNotFound
    }
}

impl vstd::std_specs::convert::FromSpecImpl<mongodb::error::Error> for OrganizationError {
    open spec fn obeys_from_spec() -> bool {
        true
    }

    open spec fn from_spec(v: mongodb::error::Error) -> Self {
        OrganizationError::OrganizationNotFound
    }
}

/// A document that does not decode reads as the entity not being found.
impl From<mongodb::bson::de::Error> for OrganizationError {
    fn from(_err: mongodb::bson::de::Error) -> (res: Self) {
        OrganizationError::OrganizationNotFound
    }
}

impl vstd::std_specs::convert::FromSpecImpl<mongodb::bson::de::Error> for OrganizationError {
    open spec fn obeys_from_spec() -> bool {
        true
    }

    open spec fn from_spec(v: mongodb::bson::de::Error) -> Self {
        OrganizationError::OrganizationNotFound
    }
}

} // verus!
