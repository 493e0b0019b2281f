//! Tenants: a host, its look, its features and its menus.
use vstd::prelude::*;
use crate::domain::plans::plan_type::PlanFeatures;
use crate::domain::tenant::menu::{duplicate_menus, duplicate_strings, menus_view, Menu, MenuView};
use crate::domain::tenant::tenant_error::TenantError;
use crate::utils::domains_ids::{opt_id_view, OrganizationID, PlanID, TenantID};

verus! {

#[derive(Debug)]
pub struct TenantColors {
    pub primary: String,
    pub secondary: String,
    pub accent: String,
    pub background: String,
    pub text: String,
}

#[derive(Debug)]
pub struct TenantConfiguration {
    pub logo: String,
    pub colors: TenantColors,
    pub theme: String,
    pub menu_type: String,
}

#[derive(Debug)]
pub struct Tenant {
    pub id: Option<TenantID>,
    pub host: String,
    pub name: String,
    pub organization_id: OrganizationID,
    pub plan_id: Option<PlanID>,
    pub configuration: TenantConfiguration,
    pub state: TenantState,
    pub features: TenantFeatures,
    pub default_language: String,
    pub available_languages: Vec<String>,
    pub menus: Vec<Menu>,
}

#[derive(Clone, Copy, Debug, PartialEq, Eq, Structural)]
pub enum TenantState {
    Active,
    Inactive,
    Trial,
}

#[derive(Clone, Copy, Debug, PartialEq, Eq, Structural)]
pub struct TenantFeatures {
    pub migration: bool,
}

impl Default for TenantFeatures {
    fn default() -> (features: Self)
        ensures
            !features.migration,
    {
        TenantFeatures { migration: false }
    }
}

/// Whether a plan with these features lets a tenant have those it asks for.
/// A plan that does not offer migration admits no tenant.
pub open spec fn features_admitted(features: TenantFeatures, plan_features: PlanFeatures) -> bool {
    plan_features.migration
}

impl TenantFeatures {
    /// Checks the features against those of a plan.
    pub fn validate_against_plan(&self, plan_features: &PlanFeatures) -> (res: Result<(), TenantError>)
        ensures
            res is Ok <==> features_admitted(*self, *plan_features),
            res matches Err(e) ==> e matches TenantError::FeatureNotAllowedByPlan(f) && f@ == "migration"@,
    {
        if !plan_features.migration {
            return Err(TenantError::FeatureNotAllowedByPlan("migration".to_owned()));
        }
        Ok(())
    }
}

#[derive(Debug)]
pub struct NewTenant {
    pub host: String,
    pub name: String,
    pub organization_id: OrganizationID,
    pub plan_id: Option<PlanID>,
    pub configuration: TenantConfiguration,
    pub state: TenantState,
    pub features: TenantFeatures,
    pub default_language: String,
    pub available_languages: Vec<String>,
    pub menus: Vec<Menu>,
}

#[derive(Clone, Copy, Debug)]
pub struct LoadTenantsByOrganization {
    pub organization_id: OrganizationID,
}

pub ghost struct TenantColorsView {
    pub primary: Seq<char>,
    pub secondary: Seq<char>,
    pub accent: Seq<char>,
    pub background: Seq<char>,
    pub text: Seq<char>,
}

pub ghost struct TenantConfigurationView {
    pub logo: Seq<char>,
    pub colors: TenantColorsView,
    pub theme: Seq<char>,
    pub menu_type: Seq<char>,
}

pub ghost struct TenantView {
    pub id: Option<Seq<u8>>,
    pub host: Seq<char>,
    pub name: Seq<char>,
    pub organization_id: Seq<u8>,
    pub plan_id: Option<Seq<u8>>,
    pub configuration: TenantConfigurationView,
    pub state: TenantState,
    pub features: TenantFeatures,
    pub default_language: Seq<char>,
    pub available_languages: Seq<Seq<char>>,
    pub menus: Seq<MenuView>,
}

pub open spec fn strings_view(strings: Seq<String>) -> Seq<Seq<char>> {
    strings.map_values(|s: String| s@)
}

impl View for TenantColors {
    type V = TenantColorsView;

    open spec fn view(&self) -> TenantColorsView {
        TenantColorsView {
            primary: self.primary@,
            secondary: self.secondary@,
            accent: self.accent@,
            background: self.background@,
            text: self.text@,
        }
    }
}

impl View for TenantConfiguration {
    type V = TenantConfigurationView;

    open spec fn view(&self) -> TenantConfigurationView {
        TenantConfigurationView {
            logo: self.logo@,
            colors: self.colors@,
            theme: self.theme@,
            menu_type: self.menu_type@,
        }
    }
}

impl View for Tenant {
    type V = TenantView;

    open spec fn view(&self) -> TenantView {
        TenantView {
            id: opt_id_view(self.id),
            host: self.host@,
            name: self.name@,
            organization_id: self.organization_id@,
            plan_id: opt_id_view(self.plan_id),
            configuration: self.configuration@,
            state: self.state,
            features: self.features,
            default_language: self.default_language@,
            available_languages: strings_view(self.available_languages@),
            menus: menus_view(self.menus@),
        }
    }
}


impl TenantColors {
    /// A copy of the colors.
    pub fn duplicate(&self) -> (copy: TenantColors)
        ensures
            copy@ == self@,
    {
        TenantColors {
            primary: self.primary.clone(),
            secondary: self.secondary.clone(),
            accent: self.accent.clone(),
            background: self.background.clone(),
            text: self.text.clone(),
        }
    }
}

impl TenantConfiguration {
    /// A copy of the configuration.
    pub fn duplicate(&self) -> (copy: TenantConfiguration)
        ensures
            copy@ == self@,
    {
        TenantConfiguration {
            logo: self.logo.clone(),
            colors: self.colors.duplicate(),
            theme: self.theme.clone(),
            menu_type: self.menu_type.clone(),
        }
    }
}

impl Tenant {
    /// A copy of the tenant.
    pub fn duplicate(&self) -> (copy: Tenant)
        ensures
            copy@ == self@,
    {
        Tenant {
            id: self.id,
            host: self.host.clone(),
            name: self.name.clone(),
            organization_id: self.organization_id,
            plan_id: self.plan_id,
            configuration: self.configuration.duplicate(),
            state: self.state,
            features: self.features,
            default_language: self.default_language.clone(),
            available_languages: duplicate_strings(&self.available_languages),
            menus: duplicate_menus(&self.menus),
        }
    }
}

} // verus!
