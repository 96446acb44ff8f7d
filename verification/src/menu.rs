//! The application menu as data: what is declared, and in which order.

use vstd::prelude::*;
use crate::text::str_eq;

verus! {

/// Identifier of the item that exports the data as CSV.
pub const EXPORT_CSV_ID: &'static str = "export_csv";

/// Identifier of the item that imports data from CSV.
pub const IMPORT_CSV_ID: &'static str = "import_csv";

/// Identifier of the item that shares the data as CSV.
pub const SHARE_CSV_ID: &'static str = "share_csv";

/// Identifier of the item that opens the event log.
pub const EVENT_LOG_ID: &'static str = "event_log";

/// Identifier of the item that shows the attributions.
pub const ICON_CREDITS_ID: &'static str = "icon_credits";

/// Identifier of the About item.
pub const ABOUT_ID: &'static str = "about_shirt_tracker";

/// Identifier of the Quit item.
pub const QUIT_ID: &'static str = "quit_app";

/// Which set of menu items the shell is built with.
#[derive(Clone, Copy, Debug, PartialEq, Eq, Hash, Structural)]
pub enum Edition {
    /// File offers Export CSV, Import CSV and Event Log; the application
    /// submenu offers About and Quit.
    ImportExport,
    /// File offers Share Data (CSV) and Event Log; the application submenu
    /// offers About, Attributes and Quit.
    Share,
}

/// One clickable entry of the menu.
#[derive(Clone, Copy, Debug, PartialEq, Eq)]
pub struct MenuItem {
    /// The key by which an activation names the item.
    pub id: &'static str,
    /// The text shown to the user.
    pub label: &'static str,
    pub enabled: bool,
    /// The keyboard shortcut bound to the item, if any.
    pub accelerator: Option<&'static str>,
}

/// What a [`MenuItem`] holds, as mathematical values.
pub struct MenuItemView {
    pub id: Seq<char>,
    pub label: Seq<char>,
    pub enabled: bool,
    pub accelerator: Option<Seq<char>>,
}

impl View for MenuItem {
    type V = MenuItemView;

    open spec fn view(&self) -> MenuItemView {
        MenuItemView {
            id: self.id@,
            label: self.label@,
            enabled: self.enabled,
            accelerator: match self.accelerator {
                Some(keys) => Some(keys@),
                None => None,
            },
        }
    }
}

impl MenuItem {
    /// An item with the given identifier, label, enabled flag and
    /// accelerator.
    pub fn with_id(
        id: &'static str,
        label: &'static str,
        enabled: bool,
        accelerator: Option<&'static str>,
    ) -> (item: MenuItem)
        ensures
            item.id == id,
            item.label == label,
            item.enabled == enabled,
            item.accelerator == accelerator,
    {
        MenuItem { id, label, enabled, accelerator }
    }
}

/// A labelled group of items, in the order in which they are shown.
#[derive(Clone, Debug, PartialEq, Eq)]
pub struct Submenu {
    pub label: &'static str,
    pub enabled: bool,
    pub items: Vec<MenuItem>,
}

/// What a [`Submenu`] holds, as mathematical values.
pub struct SubmenuView {
    pub label: Seq<char>,
    pub enabled: bool,
    pub items: Seq<MenuItemView>,
}

impl View for Submenu {
    type V = SubmenuView;

    open spec fn view(&self) -> SubmenuView {
        SubmenuView {
            label: self.label@,
            enabled: self.enabled,
            items: Seq::new(self.items@.len(), |i: int| self.items@[i]@),
        }
    }
}

/// The whole menu: its submenus from left to right.
#[derive(Clone, Debug, PartialEq, Eq)]
pub struct Menu {
    pub submenus: Vec<Submenu>,
}

/// What a [`Menu`] holds, as mathematical values.
pub struct MenuView {
    pub submenus: Seq<SubmenuView>,
}

impl View for Menu {
    type V = MenuView;

    open spec fn view(&self) -> MenuView {
        MenuView { submenus: Seq::new(self.submenus@.len(), |s: int| self.submenus@[s]@) }
    }
}

impl MenuView {
    /// Whether item `i` of submenu `s` exists.
    pub open spec fn has_item_at(self, s: int, i: int) -> bool {
        0 <= s < self.submenus.len() && 0 <= i < self.submenus[s].items.len()
    }

    /// The identifier of item `i` of submenu `s`.
    pub open spec fn id_at(self, s: int, i: int) -> Seq<char>
        recommends
            self.has_item_at(s, i),
    {
        self.submenus[s].items[i].id
    }

    /// Whether some item of the menu has the identifier `id`.
    pub open spec fn declares(self, id: Seq<char>) -> bool {
        exists|s: int, i: int| self.has_item_at(s, i) && #[trigger] self.id_at(s, i) == id
    }

    /// Whether no identifier is used by two items of the menu.
    pub open spec fn ids_unique(self) -> bool {
        forall|s: int, i: int, t: int, j: int|
            self.has_item_at(s, i) && self.has_item_at(t, j) && #[trigger] self.id_at(s, i)
                == #[trigger] self.id_at(t, j) ==> s == t && i == j
    }

    /// Whether position `(s, i)` comes before position `(t, j)` when the
    /// menu is read submenu by submenu.
    pub open spec fn precedes(s: int, i: int, t: int, j: int) -> bool {
        s < t || (s == t && i < j)
    }
}

/// An enabled item, as the declarations below list them.
pub open spec fn enabled_item(
    id: Seq<char>,
    label: Seq<char>,
    accelerator: Option<Seq<char>>,
) -> MenuItemView {
    MenuItemView { id, label, enabled: true, accelerator }
}

/// The application submenu of `edition`: About, then the attributions
/// where the edition has them, then Quit.
pub open spec fn app_submenu_spec(edition: Edition) -> SubmenuView {
    SubmenuView {
        label: "Shirt Tracker"@,
        enabled: true,
        items: match edition {
            Edition::ImportExport => seq![
                enabled_item(ABOUT_ID@, "About Shirt Tracker"@, None),
                enabled_item(QUIT_ID@, "Quit"@, Some("Cmd+Q"@)),
            ],
            Edition::Share => seq![
                enabled_item(ABOUT_ID@, "About Shirt Tracker"@, None),
                enabled_item(ICON_CREDITS_ID@, "Attributes"@, None),
                enabled_item(QUIT_ID@, "Quit"@, Some("Cmd+Q"@)),
            ],
        },
    }
}

/// The File submenu of `edition`: its data operations.
pub open spec fn file_submenu_spec(edition: Edition) -> SubmenuView {
    SubmenuView {
        label: "File"@,
        enabled: true,
        items: match edition {
            Edition::ImportExport => seq![
                enabled_item(EXPORT_CSV_ID@, "Export CSV"@, None),
                enabled_item(IMPORT_CSV_ID@, "Import CSV"@, None),
                enabled_item(EVENT_LOG_ID@, "Event Log"@, None),
            ],
            Edition::Share => seq![
                enabled_item(SHARE_CSV_ID@, "Share Data (CSV)"@, None),
                enabled_item(EVENT_LOG_ID@, "Event Log"@, None),
            ],
        },
    }
}

/// The menu of `edition`: the application submenu, then File.
pub open spec fn menu_spec(edition: Edition) -> MenuView {
    MenuView { submenus: seq![app_submenu_spec(edition), file_submenu_spec(edition)] }
}

/// The seven identifiers are seven different strings.
pub proof fn lemma_identifiers_differ()
    ensures
        EXPORT_CSV_ID@ != IMPORT_CSV_ID@,
        EXPORT_CSV_ID@ != SHARE_CSV_ID@,
        EXPORT_CSV_ID@ != EVENT_LOG_ID@,
        EXPORT_CSV_ID@ != ICON_CREDITS_ID@,
        EXPORT_CSV_ID@ != ABOUT_ID@,
        EXPORT_CSV_ID@ != QUIT_ID@,
        IMPORT_CSV_ID@ != SHARE_CSV_ID@,
        IMPORT_CSV_ID@ != EVENT_LOG_ID@,
        IMPORT_CSV_ID@ != ICON_CREDITS_ID@,
        IMPORT_CSV_ID@ != ABOUT_ID@,
        IMPORT_CSV_ID@ != QUIT_ID@,
        SHARE_CSV_ID@ != EVENT_LOG_ID@,
        SHARE_CSV_ID@ != ICON_CREDITS_ID@,
        SHARE_CSV_ID@ != ABOUT_ID@,
        SHARE_CSV_ID@ != QUIT_ID@,
        EVENT_LOG_ID@ != ICON_CREDITS_ID@,
        EVENT_LOG_ID@ != ABOUT_ID@,
        EVENT_LOG_ID@ != QUIT_ID@,
        ICON_CREDITS_ID@ != ABOUT_ID@,
        ICON_CREDITS_ID@ != QUIT_ID@,
        ABOUT_ID@ != QUIT_ID@,
{
    reveal_strlit("export_csv");
    reveal_strlit("import_csv");
    reveal_strlit("share_csv");
    reveal_strlit("event_log");
    reveal_strlit("icon_credits");
    reveal_strlit("about_shirt_tracker");
    reveal_strlit("quit_app");
    assert(EXPORT_CSV_ID@.len() == 10 && IMPORT_CSV_ID@.len() == 10);
    assert(SHARE_CSV_ID@.len() == 9 && EVENT_LOG_ID@.len() == 9);
    assert(ICON_CREDITS_ID@.len() == 12);
    assert(ABOUT_ID@.len() == 19);
    assert(QUIT_ID@.len() == 8);
    assert(EXPORT_CSV_ID@[0] != IMPORT_CSV_ID@[0]);
    assert(SHARE_CSV_ID@[0] != EVENT_LOG_ID@[0]);
}

/// Within the menu of an edition no identifier is declared twice.
pub proof fn declared_identifiers_are_unique(edition: Edition)
    ensures
        menu_spec(edition).ids_unique(),
{
    lemma_identifiers_differ();
}

impl Submenu {
    /// A submenu that shows `items` in the order in which they are given.
    pub fn with_items(label: &'static str, enabled: bool, items: Vec<MenuItem>) -> (submenu:
        Submenu)
        ensures
            submenu.label == label,
            submenu.enabled == enabled,
            submenu.items@ == items@,
    {
        Submenu { label, enabled, items }
    }
}

/// The application submenu of `edition`, its items in declaration order.
pub fn app_submenu(edition: Edition) -> (submenu: Submenu)
    ensures
        submenu@ == app_submenu_spec(edition),
{
    let about_item = MenuItem::with_id(ABOUT_ID, "About Shirt Tracker", true, None);
    let quit_item = MenuItem::with_id(QUIT_ID, "Quit", true, Some("Cmd+Q"));
    let items = match edition {
        Edition::ImportExport => vec![about_item, quit_item],
        Edition::Share => {
            let icon_credits = MenuItem::with_id(ICON_CREDITS_ID, "Attributes", true, None);
            vec![about_item, icon_credits, quit_item]
        },
    };
    let submenu = Submenu::with_items("Shirt Tracker", true, items);
    assert(submenu@.items =~= app_submenu_spec(edition).items);
    submenu
}

/// The File submenu of `edition`, its items in declaration order.
pub fn file_submenu(edition: Edition) -> (submenu: Submenu)
    ensures
        submenu@ == file_submenu_spec(edition),
{
    let event_log = MenuItem::with_id(EVENT_LOG_ID, "Event Log", true, None);
    let items = match edition {
        Edition::ImportExport => {
            let export_csv = MenuItem::with_id(EXPORT_CSV_ID, "Export CSV", true, None);
            let import_csv = MenuItem::with_id(IMPORT_CSV_ID, "Import CSV", true, None);
            vec![export_csv, import_csv, event_log]
        },
        Edition::Share => {
            let share_csv = MenuItem::with_id(SHARE_CSV_ID, "Share Data (CSV)", true, None);
            vec![share_csv, event_log]
        },
    };
    let submenu = Submenu::with_items("File", true, items);
    assert(submenu@.items =~= file_submenu_spec(edition).items);
    submenu
}

/// The menu of `edition`: the application submenu, then File. No
/// identifier occurs twice in it.
pub fn build_menu(edition: Edition) -> (menu: Menu)
    ensures
        menu@ == menu_spec(edition),
        menu@.ids_unique(),
{
    let app_menu = app_submenu(edition);
    let file_menu = file_submenu(edition);
    let menu = Menu::with_items(vec![app_menu, file_menu]);
    proof {
        assert(menu@.submenus =~= menu_spec(edition).submenus);
        declared_identifiers_are_unique(edition);
    }
    menu
}

impl Menu {
    /// A menu that shows `submenus` from left to right in the order in
    /// which they are given.
    pub fn with_items(submenus: Vec<Submenu>) -> (menu: Menu)
        ensures
            menu.submenus@ == submenus@,
    {
        Menu { submenus }
    }

    /// Where the first item with the identifier `id` stands: the index of
    /// its submenu and its index in that submenu.
    pub fn find(&self, id: &str) -> (found: Option<(usize, usize)>)
        ensures
            match found {
                Some((s, i)) => {
                    &&& self@.has_item_at(s as int, i as int)
                    &&& self@.id_at(s as int, i as int) == id@
                    &&& forall|t: int, j: int|
                        self@.has_item_at(t, j) && MenuView::precedes(t, j, s as int, i as int)
                            ==> #[trigger] self@.id_at(t, j) != id@
                },
                None => !self@.declares(id@),
            },
    {
        let mut s: usize = 0;
        while s < self.submenus.len()
            invariant
                s <= self.submenus.len(),
                forall|t: int, j: int|
                    self@.has_item_at(t, j) && t < s ==> #[trigger] self@.id_at(t, j) != id@,
            decreases self.submenus.len() - s,
        {
            let submenu = &self.submenus[s];
            let mut i: usize = 0;
            while i < submenu.items.len()
                invariant
                    s < self.submenus.len(),
                    *submenu == self.submenus@[s as int],
                    i <= submenu.items.len(),
                    forall|t: int, j: int|
                        self@.has_item_at(t, j) && MenuView::precedes(t, j, s as int, i as int)
                            ==> #[trigger] self@.id_at(t, j) != id@,
                decreases submenu.items.len() - i,
            {
                if str_eq(submenu.items[i].id, id) {
                    return Some((s, i));
                }
                i += 1;
            }
            s += 1;
        }
        None
    }
}

} // verus!
