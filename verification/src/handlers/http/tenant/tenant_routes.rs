//! How the tenant endpoints read a request: which tenant it is about.
use vstd::prelude::*;
use crate::domain::tenant::tenant_type::NewTenant;
use crate::utils::domains_ids::{hex_decode_id, EntityId, TenantID};
use crate::utils::hub_context::HubContext;

verus! {

/// The first of the path, the query and the hub that names a tenant with a non-empty text.
pub open spec fn effective_tenant_id(path_id: Option<Seq<char>>, query_id: Option<Seq<char>>, hub_tenant_id: Seq<char>) -> Option<Seq<char>> {
    if path_id is Some && path_id->0.len() != 0 {
        path_id
    } else if query_id is Some && query_id->0.len() != 0 {
        query_id
    } else if hub_tenant_id.len() != 0 {
        Some(hub_tenant_id)
    } else {
        None
    }
}

pub open spec fn opt_text(text: Option<String>) -> Option<Seq<char>> {
    match text {
        Some(t) => Some(t@),
        None => None,
    }
}

/// The tenant a request is about: named in the path, else in the query, else by the hub.
pub fn get_effective_tenant_id(path_id: Option<String>, query_tenant_id: Option<String>, hub_ctx: &HubContext) -> (id: Option<String>)
    ensures
        opt_text(id) == effective_tenant_id(opt_text(path_id), opt_text(query_tenant_id), hub_ctx.tenant_id@),
{
    if let Some(id) = path_id {
        if !id.as_str().is_empty() {
            return Some(id);
        }
    }
    if let Some(id) = query_tenant_id {
        if !id.as_str().is_empty() {
            return Some(id);
        }
    }
    if !hub_ctx.tenant_id.as_str().is_empty() {
        return Some(hub_ctx.tenant_id.clone());
    }
    None
}

/// A new tenant with an empty host takes the tenant that the hub names, if it names one.
pub fn apply_hub_host(new_tenant: &mut NewTenant, hub_ctx: &HubContext)
    ensures
        final(new_tenant).host@ == if hub_ctx.tenant_id@.len() != 0 && old(new_tenant).host@.len() == 0 {
            hub_ctx.tenant_id@
        } else {
            old(new_tenant).host@
        },
        final(new_tenant).name == old(new_tenant).name,
        final(new_tenant).organization_id == old(new_tenant).organization_id,
        final(new_tenant).plan_id == old(new_tenant).plan_id,
        final(new_tenant).configuration == old(new_tenant).configuration,
        final(new_tenant).state == old(new_tenant).state,
        final(new_tenant).features == old(new_tenant).features,
        final(new_tenant).default_language == old(new_tenant).default_language,
        final(new_tenant).available_languages == old(new_tenant).available_languages,
        final(new_tenant).menus == old(new_tenant).menus,
{
    if !hub_ctx.tenant_id.as_str().is_empty() && new_tenant.host.as_str().is_empty() {
        new_tenant.host = hub_ctx.tenant_id.clone();
    }
}

/// The host that a listing of tenants is narrowed to: the tenant the hub names, if any.
pub fn hub_host_filter(hub_ctx: &HubContext) -> (host: Option<String>)
    ensures
        opt_text(host) == if hub_ctx.tenant_id@.len() == 0 {
            None
        } else {
            Some(hub_ctx.tenant_id@)
        },
{
    if hub_ctx.tenant_id.as_str().is_empty() {
        None
    } else {
        Some(hub_ctx.tenant_id.clone())
    }
}

/// How a request names a tenant: by id, or else by host.
#[derive(Debug)]
pub enum TenantReference {
    Id(TenantID),
    Host(String),
}

/// A text that reads as an object id names a tenant by id; any other names it by host.
pub fn tenant_reference(id_or_host: String) -> (reference: TenantReference)
    ensures
        match reference {
            TenantReference::Id(id) => hex_decode_id(id_or_host@) == Some(id@),
            TenantReference::Host(host) => hex_decode_id(id_or_host@) is None && host@ == id_or_host@,
        },
{
    match EntityId::parse_str(id_or_host.as_str()) {
        Some(id) => TenantReference::Id(id),
        None => TenantReference::Host(id_or_host),
    }
}

} // verus!
