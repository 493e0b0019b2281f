//! The ways an operation on agencies can fail.
use vstd::prelude::*;

verus! {

#[derive(Clone, Debug)]
pub enum AgencyError {
    AgencyNotFound,
    AgencyDocumentNotCreated,
    AgencyDocNotUpdated,
    EmptyName,
    RedisError(String),
    NotHasPermission,
    AgencyMustBeInactiveToDelete,
}

/// What a AgencyError holds: its variant and, for some, a text.
pub ghost enum AgencyErrorView {
    AgencyNotFound,
    AgencyDocumentNotCreated,
    AgencyDocNotUpdated,
    EmptyName,
    RedisError(Seq<char>),
    NotHasPermission,
    AgencyMustBeInactiveToDelete,
}

impl View for AgencyError {
    type V = AgencyErrorView;

    open spec fn view(&self) -> AgencyErrorView {
        match self {
            AgencyError::AgencyNotFound => AgencyErrorView::AgencyNotFound,
            AgencyError::AgencyDocumentNotCreated => AgencyErrorView::AgencyDocumentNotCreated,
            AgencyError::AgencyDocNotUpdated => AgencyErrorView::AgencyDocNotUpdated,
            AgencyError::EmptyName => AgencyErrorView::EmptyName,
            AgencyError::RedisError(detail) => AgencyErrorView::RedisError(detail@),
            AgencyError::NotHasPermission => AgencyErrorView::NotHasPermission,
            AgencyError::AgencyMustBeInactiveToDelete => AgencyErrorView::AgencyMustBeInactiveToDelete,
        }
    }
}

impl AgencyError {
    /// The text that the error is shown as.
    pub open spec fn message_spec(&self) -> Seq<char> {
        match self {
            AgencyError::AgencyNotFound => "Agency not found"@,
            AgencyError::AgencyDocumentNotCreated => "Agency document not created"@,
            AgencyError::AgencyDocNotUpdated => "Agency document not updated"@,
            AgencyError::EmptyName => "Agency name cannot be empty"@,
            AgencyError::RedisError(detail) => "Redis error: "@ + detail@,
            AgencyError::NotHasPermission => "You do not have permission to perform this action"@,
            AgencyError::AgencyMustBeInactiveToDelete => "Agency must be inactive before it can be deleted"@,
        }
    }

    /// The text that the error is shown as.
    pub fn message(&self) -> (text: String)
        ensures
            text@ == self.message_spec(),
    {
        match self {
            AgencyError::AgencyNotFound => "Agency not found".to_owned(),
            AgencyError::AgencyDocumentNotCreated => "Agency document not created".to_owned(),
            AgencyError::AgencyDocNotUpdated => "Agency document not updated".to_owned(),
            AgencyError::EmptyName => "Agency name cannot be empty".to_owned(),
            AgencyError::RedisError(detail) => "Redis error: ".to_owned().concat(detail.as_str()),
            AgencyError::NotHasPermission => "You do not have permission to perform this action".to_owned(),
            AgencyError::AgencyMustBeInactiveToDelete => "Agency must be inactive before it can be deleted".to_owned(),
        }
    }
}

/// A failure of the document store reads as the entity not being found.
impl From<mongodb::error::Error> for AgencyError {
    fn from(_err: mongodb::error::Error) -> (res: Self) {
        AgencyError::AgencyNotFound
    }
}

impl vstd::std_specs::convert::FromSpecImpl<mongodb::error::Error> for AgencyError {
    open spec fn obeys_from_spec() -> bool {
        true
    }

    open spec fn from_spec(v: mongodb::error::Error) -> Self {
        AgencyError::AgencyNotFound
    }
}

/// A document that does not decode reads as the entity not being found.
impl From<mongodb::bson::de::Error> for AgencyError {
    fn from(_err: mongodb::bson::de::Error) -> (res: Self) {
        AgencyError::AgencyNotFound
    }
}

impl vstd::std_specs::convert::FromSpecImpl<mongodb::bson::de::Error> for AgencyError {
    open spec fn obeys_from_spec() -> bool {
        true
    }

    open spec fn from_spec(v: mongodb::bson::de::Error) -> Self {
        AgencyError::AgencyNotFound
    }
}

} // verus!
