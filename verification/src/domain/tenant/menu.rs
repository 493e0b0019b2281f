//! Menus that a tenant publishes: named lists of items, nested through children.
use vstd::prelude::*;
use crate::domain::tenant::tenant_type::{strings_view, TenantFeatures};
use crate::utils::domains_ids::{opt_id_view, EntityId, MenuItemID};

verus! {

#[derive(Clone, Copy, Debug, PartialEq, Eq, Structural)]
pub enum FeatureType {
    Migration,
}

#[derive(Debug)]
pub struct MenuLabel {
    pub lang: String,
    pub label: String,
}

#[derive(Debug)]
pub enum MenuItemType {
    Page,
    ExternalUrl { url: String, labels: Vec<MenuLabel> },
    Feature { feature: FeatureType },
}

#[derive(Debug)]
pub struct MenuItem {
    pub id: Option<MenuItemID>,
    pub item_type: MenuItemType,
    pub order: i32,
    pub group_id: String,
    pub is_visible_front: bool,
    pub is_visible_admin: bool,
    pub permissions: Vec<String>,
    pub children: Vec<MenuItem>,
}

#[derive(Debug)]
pub struct Menu {
    pub name: String,
    pub items: Vec<MenuItem>,
    pub is_active: bool,
}

/// What a menu label holds: its language and its text.
pub ghost struct MenuLabelView {
    pub lang: Seq<char>,
    pub label: Seq<char>,
}

pub ghost enum MenuItemKind {
    Page,
    ExternalUrl { url: Seq<char>, labels: Seq<MenuLabelView> },
    Feature { feature: FeatureType },
}

/// What a menu item holds, its children included.
pub ghost struct MenuItemView {
    pub id: Option<Seq<u8>>,
    pub kind: MenuItemKind,
    pub order: i32,
    pub group_id: Seq<char>,
    pub is_visible_front: bool,
    pub is_visible_admin: bool,
    pub permissions: Seq<Seq<char>>,
    pub children: Seq<MenuItemView>,
}

pub ghost struct MenuView {
    pub name: Seq<char>,
    pub items: Seq<MenuItemView>,
    pub is_active: bool,
}

impl View for MenuLabel {
    type V = MenuLabelView;

    open spec fn view(&self) -> MenuLabelView {
        MenuLabelView { lang: self.lang@, label: self.label@ }
    }
}

pub open spec fn labels_view(labels: Seq<MenuLabel>) -> Seq<MenuLabelView> {
    labels.map_values(|l: MenuLabel| l@)
}


impl View for MenuItemType {
    type V = MenuItemKind;

    open spec fn view(&self) -> MenuItemKind {
        match self {
            MenuItemType::Page => MenuItemKind::Page,
            MenuItemType::ExternalUrl { url, labels } => MenuItemKind::ExternalUrl {
                url: url@,
                labels: labels_view(labels@),
            },
            MenuItemType::Feature { feature } => MenuItemKind::Feature { feature: *feature },
        }
    }
}


/// The views of a list of menu items, in order.
pub open spec fn items_view(items: Seq<MenuItem>) -> Seq<MenuItemView>
    decreases items,
{
    if items.len() == 0 {
        Seq::empty()
    } else {
        items_view(items.drop_last()).push(item_view(items.last()))
    }
}

pub open spec fn item_view(item: MenuItem) -> MenuItemView
    decreases item,
{
    MenuItemView {
        id: opt_id_view(item.id),
        kind: item.item_type@,
        order: item.order,
        group_id: item.group_id@,
        is_visible_front: item.is_visible_front,
        is_visible_admin: item.is_visible_admin,
        permissions: strings_view(item.permissions@),
        children: items_view(item.children@),
    }
}

impl View for MenuItem {
    type V = MenuItemView;

    open spec fn view(&self) -> MenuItemView {
        item_view(*self)
    }
}

impl View for Menu {
    type V = MenuView;

    open spec fn view(&self) -> MenuView {
        MenuView { name: self.name@, items: items_view(self.items@), is_active: self.is_active }
    }
}

pub open spec fn menus_view(menus: Seq<Menu>) -> Seq<MenuView> {
    menus.map_values(|m: Menu| m@)
}


/// The view of a list of items is the list of the items' views.
proof fn lemma_items_view(items: Seq<MenuItem>)
    ensures
        items_view(items) == items.map_values(|i: MenuItem| item_view(i)),
    decreases items.len(),
{
    if items.len() > 0 {
        lemma_items_view(items.drop_last());
        assert(items_view(items) =~= items.map_values(|i: MenuItem| item_view(i)));
    } else {
        assert(items_view(items) =~= items.map_values(|i: MenuItem| item_view(i)));
    }
}

impl MenuLabel {
    /// A copy of the label.
    pub fn duplicate(&self) -> (copy: MenuLabel)
        ensures
            copy@ == self@,
    {
        MenuLabel { lang: self.lang.clone(), label: self.label.clone() }
    }
}

/// A copy of a list of labels.
pub fn duplicate_labels(labels: &Vec<MenuLabel>) -> (copy: Vec<MenuLabel>)
    ensures
        labels_view(copy@) == labels_view(labels@),
{
    let mut copy: Vec<MenuLabel> = Vec::new();
    let mut i: usize = 0;
    while i < labels.len()
        invariant
            i <= labels@.len(),
            copy@.len() == i,
            forall|j: int| 0 <= j < i ==> #[trigger] copy@[j]@ == labels@[j]@,
        decreases labels@.len() - i,
    {
        copy.push(labels[i].duplicate());
        i = i + 1;
    }
    assert(labels_view(copy@) =~= labels_view(labels@));
    copy
}

/// A copy of a list of strings.
pub fn duplicate_strings(strings: &Vec<String>) -> (copy: Vec<String>)
    ensures
        strings_view(copy@) == strings_view(strings@),
{
    let mut copy: Vec<String> = Vec::new();
    let mut i: usize = 0;
    while i < strings.len()
        invariant
            i <= strings@.len(),
            copy@.len() == i,
            forall|j: int| 0 <= j < i ==> #[trigger] copy@[j]@ == strings@[j]@,
        decreases strings@.len() - i,
    {
        copy.push(strings[i].clone());
        i = i + 1;
    }
    assert(strings_view(copy@) =~= strings_view(strings@));
    copy
}

impl MenuItemType {
    /// A copy of the item type.
    pub fn duplicate(&self) -> (copy: MenuItemType)
        ensures
            copy@ == self@,
    {
        match self {
            MenuItemType::Page => MenuItemType::Page,
            MenuItemType::ExternalUrl { url, labels } => MenuItemType::ExternalUrl {
                url: url.clone(),
                labels: duplicate_labels(labels),
            },
            MenuItemType::Feature { feature } => MenuItemType::Feature { feature: *feature },
        }
    }
}

impl MenuItem {
    /// A copy of the item, its children included.
    pub fn duplicate(&self) -> (copy: MenuItem)
        ensures
            copy@ == self@,
        decreases self,
    {
        let children = duplicate_items(&self.children);
        MenuItem {
            id: self.id,
            item_type: self.item_type.duplicate(),
            order: self.order,
            group_id: self.group_id.clone(),
            is_visible_front: self.is_visible_front,
            is_visible_admin: self.is_visible_admin,
            permissions: duplicate_strings(&self.permissions),
            children,
        }
    }
}

/// A copy of a list of items.
pub fn duplicate_items(items: &Vec<MenuItem>) -> (copy: Vec<MenuItem>)
    ensures
        items_view(copy@) == items_view(items@),
    decreases items,
{
    let mut copy: Vec<MenuItem> = Vec::new();
    let mut i: usize = 0;
    while i < items.len()
        invariant
            i <= items@.len(),
            copy@.len() == i,
            forall|j: int| 0 <= j < i ==> #[trigger] item_view(copy@[j]) == item_view(items@[j]),
        decreases items@.len() - i,
    {
        proof {
            assert(decreases_to!(items => items@[i as int]));
        }
        copy.push(items[i].duplicate());
        i = i + 1;
    }
    proof {
        lemma_items_view(copy@);
        lemma_items_view(items@);
        assert(copy@.map_values(|i: MenuItem| item_view(i)) =~= items@.map_values(|i: MenuItem| item_view(i)));
    }
    copy
}

impl Menu {
    /// A copy of the menu.
    pub fn duplicate(&self) -> (copy: Menu)
        ensures
            copy@ == self@,
    {
        Menu { name: self.name.clone(), items: duplicate_items(&self.items), is_active: self.is_active }
    }
}


/// Whether a tenant with these features has the given feature.
pub open spec fn feature_enabled(feature: FeatureType, features: TenantFeatures) -> bool {
    match feature {
        FeatureType::Migration => features.migration,
    }
}

/// Whether an item is shown on the public site of a tenant with these features:
/// it is visible there, and a feature item needs its feature.
pub open spec fn shown_in_front(item: MenuItemView, features: TenantFeatures) -> bool {
    &&& item.is_visible_front
    &&& match item.kind {
        MenuItemKind::Feature { feature } => feature_enabled(feature, features),
        _ => true,
    }
}

/// The items that are shown, in their given order, each with its own
/// children reduced to what is shown.
pub open spec fn kept_items(items: Seq<MenuItemView>, features: TenantFeatures) -> Seq<MenuItemView>
    decreases items, 0int,
{
    if items.len() == 0 {
        Seq::empty()
    } else {
        let rest = kept_items(items.drop_last(), features);
        let last = items.last();
        if shown_in_front(last, features) {
            proof {
                assert(decreases_to!(items => items[items.len() - 1]));
            }
            rest.push(MenuItemView { children: front_items(last.children, features), ..last })
        } else {
            rest
        }
    }
}

/// What the public site shows of a list of items: the shown items, each
/// pruned likewise, ordered by `order`, items of equal order in their given order.
pub open spec fn front_items(items: Seq<MenuItemView>, features: TenantFeatures) -> Seq<MenuItemView>
    decreases items, 1int,
{
    sort_by_order(kept_items(items, features))
}

/// Places an item after every item of an ordered list whose order is not above its own.
pub open spec fn insert_by_order(sorted: Seq<MenuItemView>, x: MenuItemView) -> Seq<MenuItemView>
    decreases sorted.len(),
{
    if sorted.len() == 0 {
        seq![x]
    } else if sorted.last().order <= x.order {
        sorted.push(x)
    } else {
        insert_by_order(sorted.drop_last(), x).push(sorted.last())
    }
}

/// The items ordered by `order`; items of equal order keep their relative order.
pub open spec fn sort_by_order(items: Seq<MenuItemView>) -> Seq<MenuItemView>
    decreases items.len(),
{
    if items.len() == 0 {
        items
    } else {
        insert_by_order(sort_by_order(items.drop_last()), items.last())
    }
}

/// Whether the items are in nondecreasing `order`.
pub open spec fn ordered(items: Seq<MenuItemView>) -> bool {
    forall|i: int, j: int| 0 <= i <= j < items.len() ==> items[i].order <= items[j].order
}

proof fn lemma_insert_at_scan_point(sorted: Seq<MenuItemView>, x: MenuItemView, k: int)
    requires
        0 <= k <= sorted.len(),
        forall|j: int| k <= j < sorted.len() ==> sorted[j].order > x.order,
        k == 0 || sorted[k - 1].order <= x.order,
    ensures
        insert_by_order(sorted, x) == sorted.insert(k, x),
    decreases sorted.len(),
{
    if sorted.len() == 0 {
        assert(sorted.insert(k, x) =~= seq![x]);
    } else if sorted.last().order <= x.order {
        assert(k == sorted.len());
        assert(sorted.insert(k, x) =~= sorted.push(x));
    } else {
        lemma_insert_at_scan_point(sorted.drop_last(), x, k);
        assert(sorted.drop_last().insert(k, x).push(sorted.last()) =~= sorted.insert(k, x));
    }
}

/// Sorts items by `order`, keeping items of equal order in their given order.
pub fn sort_items_by_order(items: Vec<MenuItem>) -> (sorted: Vec<MenuItem>)
    ensures
        items_view(sorted@) == sort_by_order(items_view(items@)),
{
    let ghost given = items_view(items@);
    let mut rest = items;
    let mut sorted: Vec<MenuItem> = Vec::new();
    proof {
        lemma_items_view(rest@);
        lemma_items_view(sorted@);
        assert(given.take(0) =~= Seq::<MenuItemView>::empty());
    }
    while rest.len() > 0
        invariant
            given.len() == sorted@.len() + rest@.len(),
            rest@.map_values(|i: MenuItem| item_view(i)) =~= given.skip(sorted@.len() as int),
            sorted@.map_values(|i: MenuItem| item_view(i)) == sort_by_order(given.take(sorted@.len() as int)),
        decreases rest@.len(),
    {
        let ghost n = sorted@.len() as int;
        let ghost sv = sorted@.map_values(|i: MenuItem| item_view(i));
        let ghost old_rest = rest@;
        let x = rest.remove(0);
        proof {
            assert(old_rest.map_values(|i: MenuItem| item_view(i))[0] == given.skip(n)[0]);
            assert(item_view(x) == given[n]);
            assert forall|j: int| 0 <= j < rest@.len() implies #[trigger] rest@[j] == old_rest[j + 1] by {}
            assert(old_rest.map_values(|i: MenuItem| item_view(i)).skip(1) =~= given.skip(n + 1));
            assert(given.take(n + 1).drop_last() =~= given.take(n));
            assert(rest@.map_values(|i: MenuItem| item_view(i)) =~= given.skip(n + 1));
        }
        let mut k: usize = sorted.len();
        while k > 0 && sorted[k - 1].order > x.order
            invariant
                k <= sorted@.len(),
                sorted@.map_values(|i: MenuItem| item_view(i)) == sv,
                forall|j: int| k <= j < sorted@.len() ==> sorted@[j].order > x.order,
            decreases k,
        {
            k = k - 1;
        }
        proof {
            lemma_insert_at_scan_point(sv, item_view(x), k as int);
        }
        sorted.insert(k, x);
        proof {
            assert(sorted@.map_values(|i: MenuItem| item_view(i)) =~= sv.insert(k as int, item_view(x)));
        }
    }
    proof {
        assert(given.take(sorted@.len() as int) =~= given);
        lemma_items_view(sorted@);
        lemma_items_view(items@);
    }
    sorted
}


/// Whether a tenant with these features has the given feature.
pub fn has_feature(feature: FeatureType, features: TenantFeatures) -> (res: bool)
    ensures
        res == feature_enabled(feature, features),
{
    match feature {
        FeatureType::Migration => features.migration,
    }
}

/// The items that the public site shows, each pruned likewise, ordered by `order`.
pub fn front_menu_items(items: &Vec<MenuItem>, features: TenantFeatures) -> (shown: Vec<MenuItem>)
    ensures
        items_view(shown@) == front_items(items_view(items@), features),
    decreases items,
{
    let ghost all = items_view(items@);
    let mut filtered: Vec<MenuItem> = Vec::new();
    let mut i: usize = 0;
    proof {
        lemma_items_view(items@);
        assert(all.take(0) =~= Seq::<MenuItemView>::empty());
        lemma_items_view(filtered@);
    }
    while i < items.len()
        invariant
            i <= items@.len(),
            all == items@.map_values(|it: MenuItem| item_view(it)),
            filtered@.map_values(|it: MenuItem| item_view(it)) == kept_items(all.take(i as int), features),
        decreases items@.len() - i,
    {
        let item = &items[i];
        proof {
            assert(all.take(i + 1).drop_last() =~= all.take(i as int));
            assert(all.take(i + 1).last() == item_view(*item));
        }
        let mut shown = item.is_visible_front;
        if shown {
            if let MenuItemType::Feature { feature } = &item.item_type {
                shown = has_feature(*feature, features);
            }
        }
        if shown {
            proof {
                assert(decreases_to!(items => items@[i as int]));
            }
            let children = front_menu_items(&item.children, features);
            let kept = MenuItem {
                id: item.id,
                item_type: item.item_type.duplicate(),
                order: item.order,
                group_id: item.group_id.clone(),
                is_visible_front: item.is_visible_front,
                is_visible_admin: item.is_visible_admin,
                permissions: duplicate_strings(&item.permissions),
                children,
            };
            let ghost before = filtered@;
            filtered.push(kept);
            proof {
                assert(filtered@.map_values(|it: MenuItem| item_view(it)) =~= before.map_values(
                    |it: MenuItem| item_view(it),
                ).push(item_view(kept)));
                assert(item_view(kept) == MenuItemView {
                    children: front_items(item_view(*item).children, features),
                    ..item_view(*item)
                });
            }
        }
        i = i + 1;
    }
    proof {
        assert(all.take(items@.len() as int) =~= all);
        lemma_items_view(filtered@);
    }
    sort_items_by_order(filtered)
}


/// A copy of a list of menus.
pub fn duplicate_menus(menus: &Vec<Menu>) -> (copy: Vec<Menu>)
    ensures
        menus_view(copy@) == menus_view(menus@),
{
    let mut copy: Vec<Menu> = Vec::new();
    let mut i: usize = 0;
    while i < menus.len()
        invariant
            i <= menus@.len(),
            copy@.len() == i,
            forall|j: int| 0 <= j < i ==> #[trigger] copy@[j]@ == menus@[j]@,
        decreases menus@.len() - i,
    {
        copy.push(menus[i].duplicate());
        i = i + 1;
    }
    assert(menus_view(copy@) =~= menus_view(menus@));
    copy
}


/// Whether a menu is the main menu.
pub open spec fn is_main(menu: MenuView) -> bool {
    menu.name == "main"@
}

/// How many main menus are active.
pub open spec fn active_main_count(menus: Seq<MenuView>) -> nat
    decreases menus.len(),
{
    if menus.len() == 0 {
        0
    } else {
        active_main_count(menus.drop_last()) + if is_main(menus.last()) && menus.last().is_active {
            1nat
        } else {
            0nat
        }
    }
}

/// The menus with every main menu made inactive, but for those named `kept`.
pub open spec fn deactivate_mains(menus: Seq<MenuView>, kept: Option<Seq<char>>) -> Seq<MenuView> {
    Seq::new(
        menus.len(),
        |i: int|
            if is_main(menus[i]) && kept != Some(menus[i].name) {
                MenuView { is_active: false, ..menus[i] }
            } else {
                menus[i]
            },
    )
}

/// The position of the first menu with the given name.
pub open spec fn first_menu_index(menus: Seq<MenuView>, name: Seq<char>) -> Option<int>
    decreases menus.len(),
{
    if menus.len() == 0 {
        None
    } else if menus[0].name == name {
        Some(0)
    } else {
        match first_menu_index(menus.drop_first(), name) {
            Some(k) => Some(k + 1),
            None => None,
        }
    }
}

/// The menus not named `name`, in order.
pub open spec fn without_menu(menus: Seq<MenuView>, name: Seq<char>) -> Seq<MenuView>
    decreases menus.len(),
{
    if menus.len() == 0 {
        Seq::empty()
    } else {
        let rest = without_menu(menus.drop_last(), name);
        if menus.last().name == name {
            rest
        } else {
            rest.push(menus.last())
        }
    }
}

proof fn lemma_first_menu_index(menus: Seq<MenuView>, name: Seq<char>, p: int)
    requires
        0 <= p <= menus.len(),
        forall|j: int| 0 <= j < p ==> menus[j].name != name,
    ensures
        p < menus.len() && menus[p].name == name ==> first_menu_index(menus, name) == Some(p),
        p == menus.len() ==> first_menu_index(menus, name) is None,
    decreases menus.len(),
{
    if menus.len() > 0 && p > 0 {
        lemma_first_menu_index(menus.drop_first(), name, p - 1);
    }
}

/// The name of the main menu.
pub fn main_menu_name() -> (name: String)
    ensures
        name@ == "main"@,
{
    "main".to_owned()
}

/// Makes every main menu inactive, but for those named `kept`.
pub fn deactivate_main_menus(menus: &mut Vec<Menu>, kept: Option<&String>)
    ensures
        menus_view(final(menus)@) == deactivate_mains(
            menus_view(old(menus)@),
            match kept {
                Some(k) => Some(k@),
                None => None,
            },
        ),
{
    let ghost orig = menus_view(menus@);
    let ghost kept_view = match kept {
        Some(k) => Some(k@),
        None => None,
    };
    let main = main_menu_name();
    let mut i: usize = 0;
    while i < menus.len()
        invariant
            i <= menus@.len(),
            orig.len() == menus@.len(),
            main@ == "main"@,
            kept_view == match kept {
                Some(k) => Some(k@),
                None => None,
            },
            forall|j: int| 0 <= j < i ==> #[trigger] menus_view(menus@)[j] == deactivate_mains(orig, kept_view)[j],
            forall|j: int| i <= j < menus@.len() ==> #[trigger] menus_view(menus@)[j] == orig[j],
        decreases menus@.len() - i,
    {
        let is_kept = match kept {
            Some(k) => menus[i].name == *k,
            None => false,
        };
        assert(is_kept == (kept_view == Some(menus@[i as int].name@)));
        assert(menus_view(menus@)[i as int] == menus@[i as int]@);
        if menus[i].name == main && !is_kept {
            let ghost before = menus@;
            let ghost before_view = menus_view(menus@);
            let mut m = menus.remove(i);
            m.is_active = false;
            menus.insert(i, m);
            proof {
                assert(menus@ =~= before.update(i as int, m));
                assert(menus_view(menus@) =~= before_view.update(i as int, m@));
            }
        }
        i = i + 1;
    }
    assert(menus_view(menus@) =~= deactivate_mains(orig, kept_view));
}

/// Counts the active main menus.
pub fn count_active_mains(menus: &Vec<Menu>) -> (count: usize)
    ensures
        count == active_main_count(menus_view(menus@)),
{
    let ghost all = menus_view(menus@);
    let main = main_menu_name();
    let mut count: usize = 0;
    let mut i: usize = 0;
    proof {
        assert(all.take(0) =~= Seq::<MenuView>::empty());
    }
    while i < menus.len()
        invariant
            i <= menus@.len(),
            main@ == "main"@,
            all == menus_view(menus@),
            count == active_main_count(all.take(i as int)),
            count <= i,
        decreases menus@.len() - i,
    {
        proof {
            assert(all.take(i + 1).drop_last() =~= all.take(i as int));
        }
        if menus[i].name == main && menus[i].is_active {
            count = count + 1;
        }
        i = i + 1;
    }
    proof {
        assert(all.take(menus@.len() as int) =~= all);
    }
    count
}

/// The position of the first menu with the given name.
pub fn find_menu(menus: &Vec<Menu>, name: &String) -> (pos: Option<usize>)
    ensures
        match pos {
            Some(p) => p < menus@.len() && first_menu_index(menus_view(menus@), name@) == Some(p as int),
            None => first_menu_index(menus_view(menus@), name@) is None,
        },
{
    let mut i: usize = 0;
    while i < menus.len()
        invariant
            i <= menus@.len(),
            forall|j: int| 0 <= j < i ==> #[trigger] menus_view(menus@)[j].name != name@,
        decreases menus@.len() - i,
    {
        if menus[i].name == *name {
            proof {
                lemma_first_menu_index(menus_view(menus@), name@, i as int);
            }
            return Some(i);
        }
        i = i + 1;
    }
    proof {
        lemma_first_menu_index(menus_view(menus@), name@, i as int);
    }
    None
}

/// Keeps the menus not named `name`, in order.
pub fn remove_menus_named(menus: Vec<Menu>, name: &String) -> (kept: Vec<Menu>)
    ensures
        menus_view(kept@) == without_menu(menus_view(menus@), name@),
{
    let ghost orig = menus_view(menus@);
    let mut rest = menus;
    let mut kept: Vec<Menu> = Vec::new();
    let ghost mut n: int = 0;
    proof {
        assert(orig.take(0) =~= Seq::<MenuView>::empty());
        assert(orig.skip(0) =~= orig);
    }
    while rest.len() > 0
        invariant
            0 <= n <= orig.len(),
            n + rest@.len() == orig.len(),
            menus_view(rest@) =~= orig.skip(n),
            menus_view(kept@) == without_menu(orig.take(n), name@),
        decreases rest@.len(),
    {
        let ghost old_rest = rest@;
        let m = rest.remove(0);
        proof {
            assert(menus_view(old_rest)[0] == m@);
            assert forall|j: int| 0 <= j < rest@.len() implies #[trigger] rest@[j] == old_rest[j + 1] by {}
            assert(menus_view(old_rest).skip(1) =~= orig.skip(n + 1));
            assert(orig.take(n + 1).drop_last() =~= orig.take(n));
            assert(orig.take(n + 1).last() == m@);
            assert(menus_view(rest@) =~= orig.skip(n + 1));
        }
        if m.name != *name {
            let ghost before = kept@;
            kept.push(m);
            proof {
                assert(menus_view(kept@) =~= menus_view(before).push(m@));
            }
        }
        proof {
            n = n + 1;
        }
    }
    proof {
        assert(orig.take(n) =~= orig);
    }
    kept
}


/// The items with the group of the first item whose id is `target` set to
/// `group_id`, searching each item before its children and its children before
/// the items that follow it; `None` when no item has that id.
pub open spec fn regroup_items(items: Seq<MenuItemView>, target: Seq<u8>, group_id: Seq<char>) -> Option<Seq<MenuItemView>>
    decreases items,
{
    if items.len() == 0 {
        None
    } else {
        match regroup_item(items[0], target, group_id) {
            Some(first) => Some(items.update(0, first)),
            None => match regroup_items(items.drop_first(), target, group_id) {
                Some(rest) => Some(seq![items[0]] + rest),
                None => None,
            },
        }
    }
}

/// The item with the group of the first item (itself, then its descendants)
/// whose id is `target` set to `group_id`.
pub open spec fn regroup_item(item: MenuItemView, target: Seq<u8>, group_id: Seq<char>) -> Option<MenuItemView>
    decreases item,
{
    if item.id == Some(target) {
        Some(MenuItemView { group_id, ..item })
    } else {
        match regroup_items(item.children, target, group_id) {
            Some(children) => Some(MenuItemView { children, ..item }),
            None => None,
        }
    }
}

proof fn lemma_regroup_skip(items: Seq<MenuItemView>, target: Seq<u8>, group_id: Seq<char>, i: int)
    requires
        0 <= i <= items.len(),
        forall|j: int| 0 <= j < i ==> #[trigger] regroup_item(items[j], target, group_id) is None,
    ensures
        regroup_items(items, target, group_id) == match regroup_items(items.skip(i), target, group_id) {
            Some(rest) => Some(items.take(i) + rest),
            None => None::<Seq<MenuItemView>>,
        },
    decreases i,
{
    if i == 0 {
        assert(items.skip(0) =~= items);
        match regroup_items(items, target, group_id) {
            Some(r) => {
                assert(items.take(0) + r =~= r);
            },
            None => {},
        }
    } else {
        lemma_regroup_skip(items.drop_first(), target, group_id, i - 1);
        assert(items.drop_first().skip(i - 1) =~= items.skip(i));
        assert(regroup_item(items[0], target, group_id) is None);
        match regroup_items(items.skip(i), target, group_id) {
            Some(rest) => {
                assert(seq![items[0]] + (items.drop_first().take(i - 1) + rest) =~= items.take(i) + rest);
            },
            None => {},
        }
    }
}

/// Sets the group of the first item with id `target`, searching each item
/// before its children; tells whether one was found.
pub fn regroup_menu_items(items: &mut Vec<MenuItem>, target: &EntityId, group_id: &String) -> (found: bool)
    ensures
        match regroup_items(items_view(old(items)@), target@, group_id@) {
            Some(updated) => found && items_view(final(items)@) == updated,
            None => !found && items_view(final(items)@) == items_view(old(items)@),
        },
    decreases *old(items),
{
    let ghost orig = items_view(items@);
    proof {
        lemma_items_view(items@);
    }
    let mut i: usize = 0;
    while i < items.len()
        invariant
            i <= items@.len(),
            items@.map_values(|it: MenuItem| item_view(it)) == orig,
            items@.len() == old(items)@.len(),
            forall|j: int| i <= j < items@.len() ==> items@[j] == old(items)@[j],
            orig == items_view(old(items)@),
            forall|j: int| 0 <= j < i ==> #[trigger] regroup_item(orig[j], target@, group_id@) is None,
        decreases items@.len() - i,
    {
        let ghost before = items@;
        assert(orig[i as int] == item_view(items@[i as int]));
        let mut item = items.remove(i);
        proof {
            assert(item == old(items)@[i as int]);
            assert(item_view(item) == orig[i as int]);
        }
        let matches = match item.id {
            Some(id) => id.same_as(target),
            None => false,
        };
        if matches {
            item.group_id = group_id.clone();
            let ghost new_item = item;
            items.insert(i, item);
            proof {
                assert(items@ =~= before.update(i as int, new_item));
                assert(regroup_item(orig[i as int], target@, group_id@) == Some(item_view(new_item)));
                lemma_regroup_skip(orig, target@, group_id@, i as int);
                assert(orig.skip(i as int)[0] == orig[i as int]);
                assert(regroup_items(orig.skip(i as int), target@, group_id@) == Some(orig.skip(i as int).update(0, item_view(new_item))));
                assert(orig.take(i as int) + orig.skip(i as int).update(0, item_view(new_item)) =~= orig.update(i as int, item_view(new_item)));
                lemma_items_view(items@);
                assert(items@.map_values(|it: MenuItem| item_view(it)) =~= orig.update(i as int, item_view(new_item)));
                assert(items_view(items@) == orig.update(i as int, item_view(new_item)));
            }
            return true;
        }
        proof {
            assert(decreases_to!(*old(items) => old(items)@[i as int]));
        }
        let found = regroup_menu_items(&mut item.children, target, group_id);
        let ghost new_item = item;
        items.insert(i, item);
        proof {
            assert(items@ =~= before.update(i as int, new_item));
            lemma_items_view(items@);
        }
        if found {
            proof {
                assert(regroup_item(orig[i as int], target@, group_id@) == Some(item_view(new_item)));
                lemma_regroup_skip(orig, target@, group_id@, i as int);
                assert(orig.skip(i as int)[0] == orig[i as int]);
                assert(regroup_items(orig.skip(i as int), target@, group_id@) == Some(orig.skip(i as int).update(0, item_view(new_item))));
                assert(orig.take(i as int) + orig.skip(i as int).update(0, item_view(new_item)) =~= orig.update(i as int, item_view(new_item)));
                assert(items@.map_values(|it: MenuItem| item_view(it)) =~= orig.update(i as int, item_view(new_item)));
                assert(items_view(items@) == orig.update(i as int, item_view(new_item)));
            }
            return true;
        }
        proof {
            assert(item_view(new_item) == orig[i as int]);
            assert(items@.map_values(|it: MenuItem| item_view(it)) =~= orig);
        }
        i = i + 1;
    }
    proof {
        lemma_regroup_skip(orig, target@, group_id@, i as int);
        assert(orig.skip(i as int) =~= Seq::<MenuItemView>::empty());
        lemma_items_view(items@);
    }
    false
}


/// Whether a list of items is fit for the public site: ordered by `order`, and
/// every item shown there, its children likewise.
pub open spec fn public_tree(items: Seq<MenuItemView>, features: TenantFeatures) -> bool
    decreases items,
{
    &&& ordered(items)
    &&& forall|i: int|
        #![trigger items[i]]
        0 <= i < items.len() ==> {
            &&& shown_in_front(items[i], features)
            &&& {
                proof {
                    assert(decreases_to!(items => items[i]));
                }
                public_tree(items[i].children, features)
            }
        }
}

proof fn lemma_insert_by_order_multiset(sorted: Seq<MenuItemView>, x: MenuItemView)
    ensures
        insert_by_order(sorted, x).to_multiset() == sorted.to_multiset().insert(x),
    decreases sorted.len(),
{
    broadcast use vstd::seq_lib::group_to_multiset_ensures;

    if sorted.len() == 0 {
        assert(seq![x] =~= Seq::<MenuItemView>::empty().push(x));
    } else if sorted.last().order <= x.order {
    } else {
        lemma_insert_by_order_multiset(sorted.drop_last(), x);
        assert(sorted.drop_last().push(sorted.last()) =~= sorted);
    }
}

/// Ordering items by `order` keeps exactly the items it is given.
pub proof fn lemma_sort_by_order_permutes(items: Seq<MenuItemView>)
    ensures
        sort_by_order(items).to_multiset() == items.to_multiset(),
    decreases items.len(),
{
    broadcast use vstd::seq_lib::group_to_multiset_ensures;

    if items.len() > 0 {
        lemma_sort_by_order_permutes(items.drop_last());
        lemma_insert_by_order_multiset(sort_by_order(items.drop_last()), items.last());
        assert(items.drop_last().push(items.last()) =~= items);
    }
}

proof fn lemma_insert_by_order_bounded(sorted: Seq<MenuItemView>, x: MenuItemView, bound: i32)
    requires
        forall|i: int| 0 <= i < sorted.len() ==> sorted[i].order <= bound,
        x.order <= bound,
    ensures
        forall|i: int| 0 <= i < insert_by_order(sorted, x).len() ==> insert_by_order(sorted, x)[i].order <= bound,
        insert_by_order(sorted, x).len() == sorted.len() + 1,
    decreases sorted.len(),
{
    if sorted.len() > 0 && sorted.last().order > x.order {
        lemma_insert_by_order_bounded(sorted.drop_last(), x, bound);
    }
}

proof fn lemma_insert_by_order_ordered(sorted: Seq<MenuItemView>, x: MenuItemView)
    requires
        ordered(sorted),
    ensures
        ordered(insert_by_order(sorted, x)),
    decreases sorted.len(),
{
    if sorted.len() > 0 && sorted.last().order > x.order {
        let last = sorted.last();
        lemma_insert_by_order_ordered(sorted.drop_last(), x);
        lemma_insert_by_order_bounded(sorted.drop_last(), x, last.order);
        let r = insert_by_order(sorted.drop_last(), x);
        assert(insert_by_order(sorted, x) == r.push(last));
        assert forall|i: int, j: int| 0 <= i <= j < r.push(last).len() implies r.push(last)[i].order <= r.push(last)[j].order by {
            if j == r.len() {
                if i < r.len() {
                    assert(r[i].order <= last.order);
                }
            }
        }
    } else if sorted.len() > 0 {
        assert forall|i: int, j: int| 0 <= i <= j < sorted.push(x).len() implies sorted.push(x)[i].order <= sorted.push(x)[j].order by {
            if j == sorted.len() && i < sorted.len() {
                assert(sorted[i].order <= sorted.last().order);
            }
        }
    }
}

/// Ordering items by `order` leaves them in nondecreasing order.
pub proof fn lemma_sort_by_order_ordered(items: Seq<MenuItemView>)
    ensures
        ordered(sort_by_order(items)),
    decreases items.len(),
{
    if items.len() > 0 {
        lemma_sort_by_order_ordered(items.drop_last());
        lemma_insert_by_order_ordered(sort_by_order(items.drop_last()), items.last());
    }
}

proof fn lemma_kept_items_public(items: Seq<MenuItemView>, features: TenantFeatures)
    ensures
        forall|i: int|
            #![trigger kept_items(items, features)[i]]
            0 <= i < kept_items(items, features).len() ==> shown_in_front(kept_items(items, features)[i], features)
                && public_tree(kept_items(items, features)[i].children, features),
    decreases items, 0int,
{
    if items.len() > 0 {
        lemma_kept_items_public(items.drop_last(), features);
        let last = items.last();
        if shown_in_front(last, features) {
            assert(decreases_to!(items => items[items.len() - 1]));
            lemma_front_items_public(last.children, features);
        }
    }
}

/// Everything the public site shows of a list of items is fit for it: each list
/// is ordered by `order`, and every item in it, at any depth, is visible on the
/// site and, when it stands for a feature, the tenant has that feature.
pub proof fn lemma_front_items_public(items: Seq<MenuItemView>, features: TenantFeatures)
    ensures
        public_tree(front_items(items, features), features),
    decreases items, 1int,
{
    broadcast use vstd::seq_lib::group_to_multiset_ensures;

    let kept = kept_items(items, features);
    let sorted = sort_by_order(kept);
    lemma_kept_items_public(items, features);
    lemma_sort_by_order_permutes(kept);
    lemma_sort_by_order_ordered(kept);
    assert forall|i: int| #![trigger sorted[i]] 0 <= i < sorted.len() implies shown_in_front(sorted[i], features)
        && public_tree(sorted[i].children, features) by {
        assert(sorted.contains(sorted[i]));
        assert(sorted.to_multiset().count(sorted[i]) > 0);
        assert(kept.contains(sorted[i]));
        let k = choose|k: int| 0 <= k < kept.len() && kept[k] == sorted[i];
        assert(kept[k] == sorted[i]);
    }
}


pub open spec fn active_main(menu: MenuView) -> bool {
    is_main(menu) && menu.is_active
}

proof fn lemma_count_none(menus: Seq<MenuView>)
    requires
        forall|j: int| 0 <= j < menus.len() ==> !active_main(#[trigger] menus[j]),
    ensures
        active_main_count(menus) == 0,
    decreases menus.len(),
{
    if menus.len() > 0 {
        lemma_count_none(menus.drop_last());
    }
}

proof fn lemma_count_update(menus: Seq<MenuView>, p: int, x: MenuView)
    requires
        0 <= p < menus.len(),
    ensures
        active_main_count(menus.update(p, x)) + (if active_main(menus[p]) { 1int } else { 0int })
            == active_main_count(menus) + (if active_main(x) { 1int } else { 0int }),
    decreases menus.len(),
{
    if p < menus.len() - 1 {
        lemma_count_update(menus.drop_last(), p, x);
        assert(menus.update(p, x).drop_last() =~= menus.drop_last().update(p, x));
    } else {
        assert(menus.update(p, x).drop_last() =~= menus.drop_last());
    }
}

proof fn lemma_count_push(menus: Seq<MenuView>, x: MenuView)
    ensures
        active_main_count(menus.push(x)) == active_main_count(menus) + (if active_main(x) { 1nat } else { 0nat }),
{
    assert(menus.push(x).drop_last() =~= menus);
}

/// After an active main menu is added, it is the only active main menu.
pub proof fn lemma_added_main_is_only_active_main(menus: Seq<MenuView>, menu: MenuView)
    requires
        is_main(menu) && menu.is_active,
    ensures
        active_main_count(deactivate_mains(menus, None).push(menu)) == 1,
{
    lemma_count_none(deactivate_mains(menus, None));
    lemma_count_push(deactivate_mains(menus, None), menu);
}

/// Adding a menu keeps at most one main menu active.
pub proof fn lemma_add_menu_keeps_one_active_main(menus: Seq<MenuView>, menu: MenuView)
    requires
        active_main_count(menus) <= 1,
    ensures
        active_main_count(
            if is_main(menu) && menu.is_active {
                deactivate_mains(menus, None)
            } else {
                menus
            }.push(menu),
        ) <= 1,
{
    if is_main(menu) && menu.is_active {
        lemma_added_main_is_only_active_main(menus, menu);
    } else {
        lemma_count_push(menus, menu);
    }
}

/// Replacing a menu keeps at most one main menu active, unless the main menu
/// itself is replaced by an active one while a later main menu is active.
pub proof fn lemma_update_menu_keeps_one_active_main(menus: Seq<MenuView>, name: Seq<char>, updated: MenuView)
    requires
        active_main_count(menus) <= 1,
        name == "main"@ && active_main(updated) && first_menu_index(menus, name) is Some ==> forall|j: int|
            0 <= j < menus.len() && j != first_menu_index(menus, name)->0 ==> !active_main(#[trigger] menus[j]),
    ensures
        ({
            let cleared = if active_main(updated) {
                deactivate_mains(menus, Some(name))
            } else {
                menus
            };
            match first_menu_index(cleared, name) {
                Some(p) => active_main_count(cleared.update(p, updated)) <= 1,
                None => active_main_count(cleared) <= 1,
            }
        }),
{
    let cleared = if active_main(updated) {
        deactivate_mains(menus, Some(name))
    } else {
        menus
    };
    if active_main(updated) && name != "main"@ {
        assert forall|j: int| 0 <= j < cleared.len() implies !active_main(#[trigger] cleared[j]) by {}
        lemma_count_none(cleared);
        if let Some(p) = first_menu_index(cleared, name) {
            lemma_first_menu_index_found(cleared, name);
            lemma_count_update(cleared, p, updated);
        }
    } else if active_main(updated) {
        assert(cleared =~= menus);
        if let Some(p) = first_menu_index(cleared, name) {
            lemma_first_menu_index_found(cleared, name);
            let quiet = MenuView { is_active: false, ..menus[p] };
            assert forall|j: int| 0 <= j < menus.update(p, quiet).len() implies !active_main(#[trigger] menus.update(p, quiet)[j]) by {}
            lemma_count_none(menus.update(p, quiet));
            lemma_count_update(menus, p, quiet);
            lemma_count_update(menus, p, updated);
        }
    } else {
        if let Some(p) = first_menu_index(cleared, name) {
            lemma_first_menu_index_found(cleared, name);
            lemma_count_update(cleared, p, updated);
        }
    }
}

proof fn lemma_first_menu_index_found(menus: Seq<MenuView>, name: Seq<char>)
    ensures
        first_menu_index(menus, name) matches Some(p) ==> 0 <= p < menus.len() && menus[p].name == name,
    decreases menus.len(),
{
    if menus.len() > 0 && menus[0].name != name {
        lemma_first_menu_index_found(menus.drop_first(), name);
    }
}

/// No menu with the deleted name is left, and every other menu stays.
pub proof fn lemma_without_menu(menus: Seq<MenuView>, name: Seq<char>)
    ensures
        forall|i: int| 0 <= i < without_menu(menus, name).len() ==> (#[trigger] without_menu(menus, name)[i]).name != name,
        forall|i: int| 0 <= i < menus.len() && (#[trigger] menus[i]).name != name ==> without_menu(menus, name).contains(menus[i]),
    decreases menus.len(),
{
    if menus.len() > 0 {
        lemma_without_menu(menus.drop_last(), name);
        let rest = without_menu(menus.drop_last(), name);
        assert forall|i: int| 0 <= i < menus.len() && (#[trigger] menus[i]).name != name implies without_menu(menus, name).contains(menus[i]) by {
            if i < menus.len() - 1 {
                assert(menus.drop_last()[i] == menus[i]);
                assert(rest.contains(menus[i]));
                let k = choose|k: int| 0 <= k < rest.len() && rest[k] == menus[i];
                if menus.last().name != name {
                    assert(rest.push(menus.last())[k] == menus[i]);
                }
            } else {
                assert(rest.push(menus.last())[rest.len() as int] == menus[i]);
            }
        }
    }
}


/// Whether some item of the list, at any depth, has the id `target`.
pub open spec fn tree_has_id(items: Seq<MenuItemView>, target: Seq<u8>) -> bool
    decreases items,
{
    exists|i: int|
        #![trigger items[i]]
        0 <= i < items.len() && (items[i].id == Some(target) || {
            proof {
                assert(decreases_to!(items => items[i]));
            }
            tree_has_id(items[i].children, target)
        })
}

/// Setting the group of an item succeeds exactly when some item, at any depth,
/// has the id.
pub proof fn lemma_regroup_found(items: Seq<MenuItemView>, target: Seq<u8>, group_id: Seq<char>)
    ensures
        regroup_items(items, target, group_id) is Some <==> tree_has_id(items, target),
    decreases items,
{
    if items.len() > 0 {
        lemma_regroup_item_found(items[0], target, group_id);
        lemma_regroup_found(items.drop_first(), target, group_id);
        let rest = items.drop_first();
        if tree_has_id(rest, target) {
            let k = choose|k: int| #![trigger rest[k]] 0 <= k < rest.len() && (rest[k].id == Some(target) || tree_has_id(rest[k].children, target));
            assert(items[k + 1] == rest[k]);
        }
        if tree_has_id(items, target) {
            let k = choose|k: int| #![trigger items[k]] 0 <= k < items.len() && (items[k].id == Some(target) || tree_has_id(items[k].children, target));
            if k > 0 {
                assert(rest[k - 1] == items[k]);
            }
        }
    }
}

proof fn lemma_regroup_item_found(item: MenuItemView, target: Seq<u8>, group_id: Seq<char>)
    ensures
        regroup_item(item, target, group_id) is Some <==> (item.id == Some(target) || tree_has_id(item.children, target)),
    decreases item,
{
    if item.id != Some(target) {
        lemma_regroup_found(item.children, target, group_id);
    }
}

} // verus!
