//! Changes that can be asked of a tenant.
use vstd::prelude::*;
use crate::domain::tenant::menu::Menu;
use crate::domain::tenant::tenant_type::{TenantConfiguration, TenantFeatures, TenantState};
use crate::utils::domains_ids::{MenuItemID, PlanID};

verus! {

#[derive(Debug)]
pub enum TenantCommand {
    UpdateName { name: String },
    UpdateState { state: TenantState },
    UpdateConfiguration { configuration: TenantConfiguration },
    UpdateFeatures { features: TenantFeatures },
    UpdatePlan { plan_id: Option<PlanID> },
    UpdateDefaultLanguage { default_language: String },
    UpdateAvailableLanguages { available_languages: Vec<String> },
    UpdateMenus { menus: Vec<Menu> },
    UpdateMenuItemGroupId { menu_name: String, item_id: MenuItemID, group_id: String },
}

} // verus!
