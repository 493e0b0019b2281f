use tenant::domain::tenant::menu::{FeatureType, Menu, MenuItem, MenuItemType, MenuLabel};
use tenant::domain::tenant::tenant_error::TenantError;
use tenant::domain::tenant::tenant_type::{
    NewTenant, TenantColors, TenantConfiguration, TenantFeatures, TenantState,
};
use tenant::domain::tenant::TenantEntity;
use tenant::utils::domains_ids::EntityId;

fn id(last: u8) -> EntityId {
    EntityId { bytes: [0, 0, 0, 0, 0, 0, 0, 0, 0, 0, 0, last] }
}

fn item(order: i32, group: &str, visible: bool, item_type: MenuItemType, children: Vec<MenuItem>) -> MenuItem {
    MenuItem {
        id: None,
        item_type,
        order,
        group_id: group.to_string(),
        is_visible_front: visible,
        is_visible_admin: true,
        permissions: vec![],
        children,
    }
}

fn page(order: i32, group: &str) -> MenuItem {
    item(order, group, true, MenuItemType::Page, vec![])
}

fn menu(name: &str, active: bool, items: Vec<MenuItem>) -> Menu {
    Menu { name: name.to_string(), items, is_active: active }
}

fn entity(migration: bool, menus: Vec<Menu>) -> TenantEntity {
    TenantEntity::new(NewTenant {
        host: "shop.example.com".to_string(),
        name: "Shop".to_string(),
        organization_id: id(1),
        plan_id: None,
        configuration: TenantConfiguration {
            logo: String::new(),
            colors: TenantColors {
                primary: "#fff".to_string(),
                secondary: "#000".to_string(),
                accent: "#f00".to_string(),
                background: "#eee".to_string(),
                text: "#111".to_string(),
            },
            theme: String::new(),
            menu_type: String::new(),
        },
        state: TenantState::Active,
        features: TenantFeatures { migration },
        default_language: "es".to_string(),
        available_languages: vec!["es".to_string()],
        menus,
    })
}

fn groups(items: &[MenuItem]) -> Vec<String> {
    items.iter().map(|i| i.group_id.clone()).collect()
}

#[test]
fn public_menus_keep_active_menus_and_visible_items_in_order() {
    let items = vec![
        page(3, "c"),
        item(1, "hidden", false, MenuItemType::Page, vec![]),
        page(1, "a"),
        page(2, "b"),
        page(1, "a2"),
    ];
    let e = entity(false, vec![menu("main", true, items), menu("footer", false, vec![page(0, "f")])]);
    let public = e.get_public_menus(None);
    assert_eq!(public.len(), 1);
    assert_eq!(public[0].name, "main");
    assert_eq!(groups(&public[0].items), vec!["a", "a2", "b", "c"]);
}

#[test]
fn feature_items_need_the_feature() {
    let items = vec![
        item(0, "migrate", true, MenuItemType::Feature { feature: FeatureType::Migration }, vec![]),
        item(
            1,
            "link",
            true,
            MenuItemType::ExternalUrl {
                url: "https://example.com".to_string(),
                labels: vec![MenuLabel { lang: "es".to_string(), label: "Enlace".to_string() }],
            },
            vec![],
        ),
    ];
    let without = entity(false, vec![menu("main", true, items)]);
    assert_eq!(groups(&without.get_public_menus(None)[0].items), vec!["link"]);

    let items = vec![item(0, "migrate", true, MenuItemType::Feature { feature: FeatureType::Migration }, vec![])];
    let with = entity(true, vec![menu("main", true, items)]);
    assert_eq!(groups(&with.get_public_menus(None)[0].items), vec!["migrate"]);
}

#[test]
fn children_are_filtered_and_ordered_too() {
    let children = vec![page(5, "z"), item(1, "gone", false, MenuItemType::Page, vec![]), page(2, "y")];
    let parent = item(0, "parent", true, MenuItemType::Page, children);
    let hidden_parent = item(1, "hidden", false, MenuItemType::Page, vec![page(0, "orphan")]);
    let e = entity(false, vec![menu("main", true, vec![parent, hidden_parent])]);
    let public = e.get_public_menus(None);
    assert_eq!(groups(&public[0].items), vec!["parent"]);
    assert_eq!(groups(&public[0].items[0].children), vec!["y", "z"]);
}

#[test]
fn filtered_tenant_keeps_everything_but_the_menus() {
    let e = entity(false, vec![menu("main", true, vec![page(0, "a")]), menu("old", false, vec![])]);
    let filtered = e.get_filtered_tenant(Some("es".to_string()));
    assert_eq!(filtered.host, "shop.example.com");
    assert_eq!(filtered.name, "Shop");
    assert_eq!(filtered.menus.len(), 1);
    assert_eq!(e.get_props().menus.len(), 2);
}

#[test]
fn two_active_main_menus_are_refused() {
    let mut e = entity(false, vec![]);
    let res = e.update_menus(vec![menu("main", true, vec![]), menu("main", true, vec![])]);
    assert!(matches!(res, Err(TenantError::OnlyOneActiveMainMenu)));
    assert_eq!(e.get_props().menus.len(), 0);
    let res = e.update_menus(vec![menu("main", true, vec![]), menu("main", false, vec![]), menu("footer", true, vec![])]);
    assert!(res.is_ok());
    assert_eq!(e.get_props().menus.len(), 3);
}

#[test]
fn adding_an_active_main_menu_deactivates_the_others() {
    let mut e = entity(false, vec![menu("main", true, vec![]), menu("footer", true, vec![])]);
    assert!(e.add_menu(menu("main", true, vec![page(0, "new")])).is_ok());
    let menus = &e.get_props().menus;
    assert_eq!(menus.len(), 3);
    assert!(!menus[0].is_active);
    assert!(menus[1].is_active);
    assert!(menus[2].is_active);
}

#[test]
fn adding_an_inactive_main_menu_changes_no_other() {
    let mut e = entity(false, vec![menu("main", true, vec![])]);
    assert!(e.add_menu(menu("main", false, vec![])).is_ok());
    let menus = &e.get_props().menus;
    assert!(menus[0].is_active);
    assert!(!menus[1].is_active);
}

#[test]
fn updating_a_menu_replaces_the_first_with_that_name() {
    let mut e = entity(false, vec![menu("main", true, vec![]), menu("footer", false, vec![]), menu("footer", false, vec![])]);
    assert!(e.update_specific_menu("footer".to_string(), menu("footer", true, vec![page(0, "f")])).is_ok());
    let menus = &e.get_props().menus;
    assert!(menus[1].is_active);
    assert_eq!(menus[1].items.len(), 1);
    assert!(!menus[2].is_active);
    assert!(menus[0].is_active);
}

#[test]
fn updating_a_missing_menu_is_refused_after_mains_are_cleared() {
    let mut e = entity(false, vec![menu("main", true, vec![])]);
    let res = e.update_specific_menu("side".to_string(), menu("main", true, vec![]));
    assert!(matches!(res, Err(TenantError::TenantDocNotUpdated)));
    assert!(!e.get_props().menus[0].is_active);
}

#[test]
fn deleting_a_menu_removes_every_menu_with_that_name() {
    let mut e = entity(false, vec![menu("a", true, vec![]), menu("b", true, vec![]), menu("a", false, vec![])]);
    assert!(e.delete_menu("a".to_string()).is_ok());
    let menus = &e.get_props().menus;
    assert_eq!(menus.len(), 1);
    assert_eq!(menus[0].name, "b");
}

#[test]
fn regrouping_changes_the_first_match_searching_children_first() {
    let mut nested = page(0, "old-child");
    nested.id = Some(id(7));
    let mut parent = item(0, "parent", true, MenuItemType::Page, vec![nested]);
    parent.id = Some(id(6));
    let mut later = page(1, "old-later");
    later.id = Some(id(7));
    let mut e = entity(false, vec![menu("main", true, vec![parent, later])]);
    assert!(e.update_menu_item_group_id("main".to_string(), id(7), "new".to_string()).is_ok());
    let items = &e.get_props().menus[0].items;
    assert_eq!(items[0].children[0].group_id, "new");
    assert_eq!(items[1].group_id, "old-later");
}

#[test]
fn regrouping_reports_what_is_missing() {
    let mut e = entity(false, vec![menu("main", true, vec![page(0, "g")])]);
    let res = e.update_menu_item_group_id("side".to_string(), id(1), "x".to_string());
    assert!(matches!(res, Err(TenantError::MenuNotFound)));
    let res = e.update_menu_item_group_id("main".to_string(), id(1), "x".to_string());
    assert!(matches!(res, Err(TenantError::MenuItemNotFound)));
    assert_eq!(e.get_props().menus[0].items[0].group_id, "g");
}
