//! Error types of the document store client that the domain errors are made from.
use vstd::prelude::*;

verus! {

/// `mongodb::error::Error`, carried through opaque.
#[verifier::external_type_specification]
#[verifier::external_body]
pub struct ExStoreError(mongodb::error::Error);

/// `mongodb::bson::de::Error`, carried through opaque.
#[verifier::external_type_specification]
#[verifier::external_body]
pub struct ExDocumentDecodeError(mongodb::bson::de::Error);

} // verus!
