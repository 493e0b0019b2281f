pub mod menu;
pub mod tenant_error;
pub mod tenant_type;

use vstd::prelude::*;
use self::menu::{
    active_main_count, count_active_mains, deactivate_main_menus, deactivate_mains, find_menu,
    first_menu_index, front_items, front_menu_items, lemma_front_items_public, public_tree, is_main, main_menu_name, menus_view,
    regroup_items, regroup_menu_items, remove_menus_named, without_menu, Menu, MenuView,
};
use self::tenant_error::TenantError;
use self::tenant_type::{
    strings_view, NewTenant, Tenant, TenantConfiguration, TenantFeatures, TenantState, TenantView,
};
use crate::utils::domains_ids::{MenuItemID, PlanID};
use crate::utils::domains_ids::opt_id_view;

verus! {

/// A tenant and the changes that can be made to it.
pub struct TenantEntity {
    props: Tenant,
}

/// What the public site shows of a list of menus: the active ones, each with
/// the items that are shown.
pub open spec fn public_menus(menus: Seq<MenuView>, features: TenantFeatures) -> Seq<MenuView>
    decreases menus.len(),
{
    if menus.len() == 0 {
        Seq::empty()
    } else {
        let rest = public_menus(menus.drop_last(), features);
        let last = menus.last();
        if last.is_active {
            rest.push(MenuView { items: front_items(last.items, features), ..last })
        } else {
            rest
        }
    }
}

/// The tenant that a new tenant becomes: without an id, everything else as given.
pub open spec fn tenant_from_new(new_tenant: NewTenant) -> TenantView {
    TenantView {
        id: None,
        host: new_tenant.host@,
        name: new_tenant.name@,
        organization_id: new_tenant.organization_id@,
        plan_id: opt_id_view(new_tenant.plan_id),
        configuration: new_tenant.configuration@,
        state: new_tenant.state,
        features: new_tenant.features,
        default_language: new_tenant.default_language@,
        available_languages: strings_view(new_tenant.available_languages@),
        menus: menus_view(new_tenant.menus@),
    }
}

/// Every menu that the public site shows is active, and its items are fit for
/// the site (see `public_tree`).
pub proof fn lemma_public_menus_public(menus: Seq<MenuView>, features: TenantFeatures)
    ensures
        forall|i: int|
            0 <= i < public_menus(menus, features).len() ==> (#[trigger] public_menus(menus, features)[i]).is_active
                && public_tree(public_menus(menus, features)[i].items, features),
    decreases menus.len(),
{
    if menus.len() > 0 {
        lemma_public_menus_public(menus.drop_last(), features);
        lemma_front_items_public(menus.last().items, features);
        let rest = public_menus(menus.drop_last(), features);
        let all = public_menus(menus, features);
        assert forall|i: int| 0 <= i < all.len() implies (#[trigger] all[i]).is_active && public_tree(all[i].items, features) by {
            if i < rest.len() {
                assert(all[i] == rest[i]);
            }
        }
    }
}

/// The public site shows every active menu and no other, in the order the
/// tenant has them, each with its name and flags as they are and the items that
/// are shown of it.
pub proof fn lemma_public_menus_are_the_active_menus(menus: Seq<MenuView>, features: TenantFeatures)
    ensures
        public_menus(menus, features) == menus.filter(|m: MenuView| m.is_active).map_values(
            |m: MenuView| MenuView { items: front_items(m.items, features), ..m },
        ),
        public_menus(menus, features).len() == menus.filter(|m: MenuView| m.is_active).len(),
    decreases menus.len(),
{
    let shown = |m: MenuView| MenuView { items: front_items(m.items, features), ..m };
    let active = |m: MenuView| m.is_active;
    reveal(Seq::filter);
    if menus.len() > 0 {
        lemma_public_menus_are_the_active_menus(menus.drop_last(), features);
        let sub = menus.drop_last().filter(active);
        assert(menus.filter(active) == if active(menus.last()) { sub.push(menus.last()) } else { sub });
        if active(menus.last()) {
            assert(sub.push(menus.last()).map_values(shown) =~= sub.map_values(shown).push(shown(menus.last())));
        }
    } else {
        assert(menus.filter(active) =~= Seq::<MenuView>::empty());
        assert(menus.filter(active).map_values(shown) =~= Seq::<MenuView>::empty());
    }
}

impl TenantEntity {
    pub closed spec fn props_view(&self) -> TenantView {
        self.props@
    }

    /// A tenant to be created from what was asked for.
    pub fn new(new_tenant: NewTenant) -> (entity: Self)
        ensures
            entity.props_view() == tenant_from_new(new_tenant),
    {
        let ghost asked = new_tenant;
        let menus = if new_tenant.menus.is_empty() {
            Vec::new()
        } else {
            new_tenant.menus
        };
        proof {
            assert(menus_view(menus@) =~= menus_view(asked.menus@));
        }
        TenantEntity {
            props: Tenant {
                id: None,
                host: new_tenant.host,
                name: new_tenant.name,
                organization_id: new_tenant.organization_id,
                plan_id: new_tenant.plan_id,
                configuration: new_tenant.configuration,
                state: new_tenant.state,
                features: new_tenant.features,
                default_language: new_tenant.default_language,
                available_languages: new_tenant.available_languages,
                menus,
            },
        }
    }

    /// The entity of a stored tenant.
    pub fn from_props(props: Tenant) -> (entity: Self)
        ensures
            entity.props_view() == props@,
    {
        TenantEntity { props }
    }

    /// The tenant as it stands.
    pub fn get_props(&self) -> (props: &Tenant)
        ensures
            props@ == self.props_view(),
    {
        &self.props
    }

    /// Renames the tenant; an empty name is refused and changes nothing.
    pub fn update_name(&mut self, name: String) -> (res: Result<(), TenantError>)
        ensures
            name@.len() == 0 ==> (res matches Err(TenantError::EmptyName)) && final(self).props_view() == old(self).props_view(),
            name@.len() != 0 ==> res is Ok && final(self).props_view() == (TenantView { name: name@, ..old(self).props_view() }),
    {
        if name.as_str().is_empty() {
            return Err(TenantError::EmptyName);
        }
        self.props.name = name;
        Ok(())
    }

    pub fn update_plan_id(&mut self, plan_id: Option<PlanID>) -> (res: Result<(), TenantError>)
        ensures
            res is Ok,
            final(self).props_view() == (TenantView { plan_id: opt_id_view(plan_id), ..old(self).props_view() }),
    {
        self.props.plan_id = plan_id;
        Ok(())
    }

    pub fn update_state(&mut self, state: TenantState) -> (res: Result<(), TenantError>)
        ensures
            res is Ok,
            final(self).props_view() == (TenantView { state, ..old(self).props_view() }),
    {
        self.props.state = state;
        Ok(())
    }

    pub fn update_configuration(&mut self, configuration: TenantConfiguration) -> (res: Result<(), TenantError>)
        ensures
            res is Ok,
            final(self).props_view() == (TenantView { configuration: configuration@, ..old(self).props_view() }),
    {
        self.props.configuration = configuration;
        Ok(())
    }

    pub fn update_features(&mut self, features: TenantFeatures) -> (res: Result<(), TenantError>)
        ensures
            res is Ok,
            final(self).props_view() == (TenantView { features, ..old(self).props_view() }),
    {
        self.props.features = features;
        Ok(())
    }

    pub fn update_default_language(&mut self, default_language: String) -> (res: Result<(), TenantError>)
        ensures
            res is Ok,
            final(self).props_view() == (TenantView { default_language: default_language@, ..old(self).props_view() }),
    {
        self.props.default_language = default_language;
        Ok(())
    }

    pub fn update_available_languages(&mut self, available_languages: Vec<String>) -> (res: Result<(), TenantError>)
        ensures
            res is Ok,
            final(self).props_view() == (TenantView {
                available_languages: strings_view(available_languages@),
                ..old(self).props_view()
            }),
    {
        self.props.available_languages = available_languages;
        Ok(())
    }

    /// The menus that the public site shows. The language is not used.
    pub fn get_public_menus(&self, _language: Option<String>) -> (menus: Vec<Menu>)
        ensures
            menus_view(menus@) == public_menus(self.props_view().menus, self.props_view().features),
    {
        let ghost all = menus_view(self.props.menus@);
        let mut shown: Vec<Menu> = Vec::new();
        let mut i: usize = 0;
        proof {
            assert(all.take(0) =~= Seq::<MenuView>::empty());
        }
        while i < self.props.menus.len()
            invariant
                i <= self.props.menus@.len(),
                all == menus_view(self.props.menus@),
                menus_view(shown@) == public_menus(all.take(i as int), self.props.features),
            decreases self.props.menus@.len() - i,
        {
            let menu = &self.props.menus[i];
            proof {
                assert(all.take(i + 1).drop_last() =~= all.take(i as int));
                assert(all.take(i + 1).last() == menu@);
            }
            if menu.is_active {
                let items = front_menu_items(&menu.items, self.props.features);
                let ghost before = shown@;
                shown.push(Menu { name: menu.name.clone(), items, is_active: menu.is_active });
                proof {
                    assert(menus_view(shown@) =~= menus_view(before).push(shown@.last()@));
                }
            }
            i = i + 1;
        }
        proof {
            assert(all.take(self.props.menus@.len() as int) =~= all);
        }
        shown
    }

    /// A copy of the tenant whose menus are those the public site shows.
    pub fn get_filtered_tenant(&self, language: Option<String>) -> (tenant: Tenant)
        ensures
            tenant@ == (TenantView {
                menus: public_menus(self.props_view().menus, self.props_view().features),
                ..self.props_view()
            }),
    {
        let mut tenant = self.props.duplicate();
        tenant.menus = self.get_public_menus(language);
        tenant
    }

    /// Replaces the menus; refused, changing nothing, when more than one main menu is active.
    pub fn update_menus(&mut self, menus: Vec<Menu>) -> (res: Result<(), TenantError>)
        ensures
            active_main_count(menus_view(menus@)) > 1 ==> (res matches Err(TenantError::OnlyOneActiveMainMenu))
                && final(self).props_view() == old(self).props_view(),
            active_main_count(menus_view(menus@)) <= 1 ==> res is Ok
                && final(self).props_view() == (TenantView { menus: menus_view(menus@), ..old(self).props_view() }),
    {
        let active_main_count = count_active_mains(&menus);
        if active_main_count > 1 {
            return Err(TenantError::OnlyOneActiveMainMenu);
        }
        self.props.menus = menus;
        Ok(())
    }

    /// Appends a menu; an active main menu makes every other main menu inactive.
    pub fn add_menu(&mut self, menu: Menu) -> (res: Result<(), TenantError>)
        ensures
            res is Ok,
            final(self).props_view() == (TenantView {
                menus: if is_main(menu@) && menu.is_active {
                    deactivate_mains(old(self).props_view().menus, None)
                } else {
                    old(self).props_view().menus
                }.push(menu@),
                ..old(self).props_view()
            }),
    {
        let main = main_menu_name();
        if menu.name == main && menu.is_active {
            deactivate_main_menus(&mut self.props.menus, None);
        }
        let ghost before = self.props.menus@;
        self.props.menus.push(menu);
        proof {
            assert(menus_view(self.props.menus@) =~= menus_view(before).push(menu@));
        }
        Ok(())
    }

    /// Replaces the first menu named `name`. An active main update first makes
    /// every main menu not named `name` inactive, and that stays done when no
    /// menu has the name, which is refused.
    pub fn update_specific_menu(&mut self, name: String, updated_menu: Menu) -> (res: Result<(), TenantError>)
        ensures
            ({
                let cleared = if is_main(updated_menu@) && updated_menu.is_active {
                    deactivate_mains(old(self).props_view().menus, Some(name@))
                } else {
                    old(self).props_view().menus
                };
                match first_menu_index(cleared, name@) {
                    Some(p) => res is Ok && final(self).props_view() == (TenantView {
                        menus: cleared.update(p, updated_menu@),
                        ..old(self).props_view()
                    }),
                    None => (res matches Err(TenantError::TenantDocNotUpdated))
                        && final(self).props_view() == (TenantView { menus: cleared, ..old(self).props_view() }),
                }
            }),
    {
        let main = main_menu_name();
        if updated_menu.name == main && updated_menu.is_active {
            deactivate_main_menus(&mut self.props.menus, Some(&name));
        }
        match find_menu(&self.props.menus, &name) {
            Some(pos) => {
                let ghost before = self.props.menus@;
                self.props.menus.set(pos, updated_menu);
                proof {
                    assert(menus_view(self.props.menus@) =~= menus_view(before).update(pos as int, updated_menu@));
                }
                Ok(())
            },
            None => Err(TenantError::TenantDocNotUpdated),
        }
    }

    /// Removes every menu named `name`.
    pub fn delete_menu(&mut self, name: String) -> (res: Result<(), TenantError>)
        ensures
            res is Ok,
            final(self).props_view() == (TenantView {
                menus: without_menu(old(self).props_view().menus, name@),
                ..old(self).props_view()
            }),
    {
        let mut menus: Vec<Menu> = Vec::new();
        std::mem::swap(&mut menus, &mut self.props.menus);
        self.props.menus = remove_menus_named(menus, &name);
        Ok(())
    }

    /// Sets the group of the item with id `item_id` in the first menu named
    /// `menu_name`; the first match in that menu, each item searched before its
    /// children, is changed. Nothing changes when the menu or the item is missing.
    pub fn update_menu_item_group_id(&mut self, menu_name: String, item_id: MenuItemID, new_group_id: String) -> (res: Result<(), TenantError>)
        ensures
            match first_menu_index(old(self).props_view().menus, menu_name@) {
                None => (res matches Err(TenantError::MenuNotFound)) && final(self).props_view() == old(self).props_view(),
                Some(p) => {
                    let menu = old(self).props_view().menus[p];
                    match regroup_items(menu.items, item_id@, new_group_id@) {
                        None => (res matches Err(TenantError::MenuItemNotFound))
                            && final(self).props_view() == old(self).props_view(),
                        Some(items) => res is Ok && final(self).props_view() == (TenantView {
                            menus: old(self).props_view().menus.update(p, MenuView { items, ..menu }),
                            ..old(self).props_view()
                        }),
                    }
                },
            },
    {
        let pos = match find_menu(&self.props.menus, &menu_name) {
            Some(p) => p,
            None => return Err(TenantError::MenuNotFound),
        };
        let ghost before = self.props.menus@;
        let mut menu = self.props.menus.remove(pos);
        let found = regroup_menu_items(&mut menu.items, &item_id, &new_group_id);
        let ghost changed = menu;
        self.props.menus.insert(pos, menu);
        proof {
            assert(self.props.menus@ =~= before.update(pos as int, changed));
            assert(menus_view(self.props.menus@) =~= menus_view(before).update(pos as int, changed@));
            if !found {
                assert(changed@ == before[pos as int]@);
                assert(menus_view(self.props.menus@) =~= menus_view(before));
            }
        }
        if found {
            Ok(())
        } else {
            Err(TenantError::MenuItemNotFound)
        }
    }
}

} // verus!
