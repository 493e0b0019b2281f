//! The rules by which the tenant collection answers: which id a document is
//! stored under, what a save or a removal reports, and the host that a lookup
//! by host compares.
use vstd::prelude::*;
use crate::data::access::store::WriteReport;
use crate::domain::tenant::tenant_error::TenantError;
use crate::domain::tenant::tenant_type::{Tenant, TenantView};
use crate::utils::domains_ids::{TenantID, EntityId};

verus! {

/// A tenant about to be stored: it keeps its id, or gets a fresh one.
pub fn assign_new_id(tenant: Tenant) -> (stored: Tenant)
    ensures
        tenant@.id is Some ==> stored@ == tenant@,
        tenant@.id is None ==> stored@.id is Some && stored@ == (TenantView { id: stored@.id, ..tenant@ }),
{
    let mut tenant = tenant;
    if tenant.id.is_none() {
        tenant.id = Some(EntityId::new());
    }
    tenant
}

/// The id under which a tenant is saved; one that was never stored cannot be.
pub fn save_target(tenant: &Tenant) -> (res: Result<TenantID, TenantError>)
    ensures
        match tenant.id {
            Some(id) => res matches Ok(target) && target@ == id@,
            None => res matches Err(TenantError::TenantNotFound),
        },
{
    match tenant.id {
        Some(id) => Ok(id),
        None => Err(TenantError::TenantNotFound),
    }
}

/// What saving a tenant answers, given what the store reported of the update:
/// the tenant, unless no stored document had its id or the update failed.
pub fn save_outcome(tenant: Tenant, report: WriteReport) -> (res: Result<Tenant, TenantError>)
    ensures
        match report {
            WriteReport::Reached(n) => if n == 0 {
                res matches Err(TenantError::TenantNotFound)
            } else {
                res matches Ok(saved) && saved@ == tenant@
            },
            WriteReport::Failed => res matches Err(TenantError::TenantDocNotUpdated),
        },
{
    match report {
        WriteReport::Reached(n) => if n == 0 {
            Err(TenantError::TenantNotFound)
        } else {
            Ok(tenant)
        },
        WriteReport::Failed => Err(TenantError::TenantDocNotUpdated),
    }
}

/// What removing a tenant answers: done when the removal reached a stored
/// document, and not found otherwise, a failed removal included.
pub fn delete_outcome(report: WriteReport) -> (res: Result<(), TenantError>)
    ensures
        res is Ok <==> (report matches WriteReport::Reached(n) && n > 0),
        res is Err ==> res matches Err(TenantError::TenantNotFound),
{
    match report {
        WriteReport::Reached(n) => if n == 0 {
            Err(TenantError::TenantNotFound)
        } else {
            Ok(())
        },
        WriteReport::Failed => Err(TenantError::TenantNotFound),
    }
}

/// The characters that Unicode's White_Space property names.
pub open spec fn is_white_space(c: char) -> bool {
    let v = c as u32;
    ||| 0x9 <= v <= 0xd
    ||| v == 0x20
    ||| v == 0x85
    ||| v == 0xa0
    ||| v == 0x1680
    ||| 0x2000 <= v <= 0x200a
    ||| v == 0x2028
    ||| v == 0x2029
    ||| v == 0x202f
    ||| v == 0x205f
    ||| v == 0x3000
}

/// A text without its leading white space.
pub open spec fn strip_leading(text: Seq<char>) -> Seq<char>
    decreases text.len(),
{
    if text.len() > 0 && is_white_space(text[0]) {
        strip_leading(text.drop_first())
    } else {
        text
    }
}

/// A text without its trailing white space.
pub open spec fn strip_trailing(text: Seq<char>) -> Seq<char>
    decreases text.len(),
{
    if text.len() > 0 && is_white_space(text.last()) {
        strip_trailing(text.drop_last())
    } else {
        text
    }
}

/// A text without its leading and trailing white space.
pub open spec fn trimmed(text: Seq<char>) -> Seq<char> {
    strip_trailing(strip_leading(text))
}

/// `str::trim` of std: the text without its leading and trailing characters of
/// Unicode's White_Space property.
#[verifier::external_body]
fn trim_text(text: &str) -> (res: &str)
    ensures
        res@ == trimmed(text@),
{
    text.trim()
}

/// The host that a lookup of tenants by host compares with the stored ones:
/// the given host without its leading and trailing white space.
pub fn lookup_host(host: &str) -> (key: String)
    ensures
        key@ == trimmed(host@),
{
    trim_text(host).to_string()
}

} // verus!
