//! Events that the service publishes and receives.
use vstd::prelude::*;
use crate::domain::tenant::tenant_type::{strings_view, Tenant, TenantFeatures, TenantState};
use crate::domain::tenant::menu::duplicate_strings;
use crate::utils::domains_ids::{hex_encode, EntityId};

verus! {

#[derive(Clone, Copy, Debug, PartialEq, Eq, Structural)]
pub enum EntityType {
    Tenant,
    Organization,
    Agency,
}

#[derive(Debug)]
pub struct StateChangedEvent {
    pub entity_type: EntityType,
    pub entity_id: String,
    pub state: TenantState,
}

#[derive(Debug)]
pub struct TenantCreatedEvent {
    pub tenant_id: String,
    pub name: String,
    pub available_languages: Vec<String>,
    pub features: TenantFeatures,
    pub organization_id: String,
    pub plan_id: Option<String>,
}

#[derive(Debug)]
pub struct GroupIDCreatedEvent {
    pub tenant_id: String,
    pub group_id: String,
    pub slug: String,
}

pub ghost struct StateChangedEventView {
    pub entity_type: EntityType,
    pub entity_id: Seq<char>,
    pub state: TenantState,
}

impl View for StateChangedEvent {
    type V = StateChangedEventView;

    open spec fn view(&self) -> StateChangedEventView {
        StateChangedEventView { entity_type: self.entity_type, entity_id: self.entity_id@, state: self.state }
    }
}

/// The event that announces a new state of an entity.
pub fn state_changed_event(entity_type: EntityType, id: &EntityId, state: TenantState) -> (event: StateChangedEvent)
    ensures
        event@ == (StateChangedEventView { entity_type, entity_id: hex_encode(id@), state }),
{
    StateChangedEvent { entity_type, entity_id: id.to_hex(), state }
}

/// The subject an event of a new state is published on.
pub open spec fn state_subject_spec(event: StateChangedEventView) -> Seq<char> {
    match event.entity_type {
        EntityType::Tenant => "tenant.state."@ + event.entity_id,
        EntityType::Organization => "organization.state."@ + event.entity_id,
        EntityType::Agency => "agency.state."@ + event.entity_id,
    }
}

/// The subject an event of a new state is published on.
pub fn state_subject(event: &StateChangedEvent) -> (subject: String)
    ensures
        subject@ == state_subject_spec(event@),
{
    let prefix = match event.entity_type {
        EntityType::Tenant => "tenant.state.".to_owned(),
        EntityType::Organization => "organization.state.".to_owned(),
        EntityType::Agency => "agency.state.".to_owned(),
    };
    prefix.concat(event.entity_id.as_str())
}

/// The subject a new tenant is announced on.
pub fn tenant_created_subject() -> (subject: String)
    ensures
        subject@ == "tenant.created"@,
{
    "tenant.created".to_owned()
}

/// The event that announces a created tenant; a tenant without an id is not announced.
pub fn tenant_created_event(tenant: &Tenant) -> (event: Option<TenantCreatedEvent>)
    ensures
        event is Some <==> tenant.id is Some,
        event matches Some(e) ==> {
            &&& e.tenant_id@ == hex_encode(tenant.id->0@)
            &&& e.name@ == tenant.name@
            &&& strings_view(e.available_languages@) == strings_view(tenant.available_languages@)
            &&& e.features == tenant.features
            &&& e.organization_id@ == hex_encode(tenant.organization_id@)
            &&& match tenant.plan_id {
                Some(p) => e.plan_id matches Some(text) && text@ == hex_encode(p@),
                None => e.plan_id is None,
            }
        },
{
    match tenant.id {
        Some(id) => {
            let plan_id = match tenant.plan_id {
                Some(p) => Some(p.to_hex()),
                None => None,
            };
            Some(
                TenantCreatedEvent {
                    organization_id: tenant.organization_id.to_hex(),
                    tenant_id: id.to_hex(),
                    name: tenant.name.clone(),
                    available_languages: duplicate_strings(&tenant.available_languages),
                    features: tenant.features,
                    plan_id,
                },
            )
        },
        None => None,
    }
}

} // verus!
