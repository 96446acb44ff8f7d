use shirt_tracker_shell::menu::{
    app_submenu, build_menu, file_submenu, Edition, Menu, MenuItem, Submenu,
};

fn labels(submenu: &Submenu) -> Vec<&'static str> {
    submenu.items.iter().map(|item| item.label).collect()
}

fn ids(submenu: &Submenu) -> Vec<&'static str> {
    submenu.items.iter().map(|item| item.id).collect()
}

#[test]
fn import_export_file_submenu_keeps_declaration_order() {
    let file = file_submenu(Edition::ImportExport);
    assert_eq!(file.label, "File");
    assert!(file.enabled);
    assert_eq!(labels(&file), vec!["Export CSV", "Import CSV", "Event Log"]);
    assert_eq!(ids(&file), vec!["export_csv", "import_csv", "event_log"]);
}

#[test]
fn share_file_submenu_keeps_declaration_order() {
    let file = file_submenu(Edition::Share);
    assert_eq!(file.label, "File");
    assert!(file.enabled);
    assert_eq!(labels(&file), vec!["Share Data (CSV)", "Event Log"]);
    assert_eq!(ids(&file), vec!["share_csv", "event_log"]);
}

#[test]
fn import_export_app_submenu_keeps_declaration_order() {
    let app = app_submenu(Edition::ImportExport);
    assert_eq!(app.label, "Shirt Tracker");
    assert!(app.enabled);
    assert_eq!(labels(&app), vec!["About Shirt Tracker", "Quit"]);
    assert_eq!(ids(&app), vec!["about_shirt_tracker", "quit_app"]);
}

#[test]
fn share_app_submenu_keeps_declaration_order() {
    let app = app_submenu(Edition::Share);
    assert_eq!(app.label, "Shirt Tracker");
    assert!(app.enabled);
    assert_eq!(labels(&app), vec!["About Shirt Tracker", "Attributes", "Quit"]);
    assert_eq!(ids(&app), vec!["about_shirt_tracker", "icon_credits", "quit_app"]);
}

#[test]
fn share_menu_is_exactly_as_declared() {
    let expected = Menu {
        submenus: vec![
            Submenu {
                label: "Shirt Tracker",
                enabled: true,
                items: vec![
                    MenuItem {
                        id: "about_shirt_tracker",
                        label: "About Shirt Tracker",
                        enabled: true,
                        accelerator: None,
                    },
                    MenuItem {
                        id: "icon_credits",
                        label: "Attributes",
                        enabled: true,
                        accelerator: None,
                    },
                    MenuItem {
                        id: "quit_app",
                        label: "Quit",
                        enabled: true,
                        accelerator: Some("Cmd+Q"),
                    },
                ],
            },
            Submenu {
                label: "File",
                enabled: true,
                items: vec![
                    MenuItem {
                        id: "share_csv",
                        label: "Share Data (CSV)",
                        enabled: true,
                        accelerator: None,
                    },
                    MenuItem {
                        id: "event_log",
                        label: "Event Log",
                        enabled: true,
                        accelerator: None,
                    },
                ],
            },
        ],
    };
    assert_eq!(build_menu(Edition::Share), expected);
}

#[test]
fn import_export_menu_is_exactly_as_declared() {
    let expected = Menu {
        submenus: vec![
            Submenu {
                label: "Shirt Tracker",
                enabled: true,
                items: vec![
                    MenuItem::with_id("about_shirt_tracker", "About Shirt Tracker", true, None),
                    MenuItem::with_id("quit_app", "Quit", true, Some("Cmd+Q")),
                ],
            },
            Submenu {
                label: "File",
                enabled: true,
                items: vec![
                    MenuItem::with_id("export_csv", "Export CSV", true, None),
                    MenuItem::with_id("import_csv", "Import CSV", true, None),
                    MenuItem::with_id("event_log", "Event Log", true, None),
                ],
            },
        ],
    };
    assert_eq!(build_menu(Edition::ImportExport), expected);
}

#[test]
fn menu_is_the_app_submenu_then_file() {
    for edition in [Edition::ImportExport, Edition::Share] {
        let menu = build_menu(edition);
        assert_eq!(menu.submenus.len(), 2);
        assert_eq!(menu.submenus[0], app_submenu(edition));
        assert_eq!(menu.submenus[1], file_submenu(edition));
    }
}

#[test]
fn only_quit_has_an_accelerator() {
    for edition in [Edition::ImportExport, Edition::Share] {
        for submenu in &build_menu(edition).submenus {
            for item in &submenu.items {
                assert!(item.enabled);
                if item.id == "quit_app" {
                    assert_eq!(item.accelerator, Some("Cmd+Q"));
                } else {
                    assert_eq!(item.accelerator, None);
                }
            }
        }
    }
}

#[test]
fn declared_identifiers_are_unique() {
    for edition in [Edition::ImportExport, Edition::Share] {
        let menu = build_menu(edition);
        let mut all: Vec<&str> = Vec::new();
        for submenu in &menu.submenus {
            for item in &submenu.items {
                assert!(!all.contains(&item.id), "{} is declared twice", item.id);
                all.push(item.id);
            }
        }
        assert_eq!(all.len(), 5);
    }
}

#[test]
fn building_twice_gives_the_same_menu() {
    assert_eq!(build_menu(Edition::Share), build_menu(Edition::Share));
    assert_eq!(build_menu(Edition::ImportExport), build_menu(Edition::ImportExport));
    assert_ne!(build_menu(Edition::Share), build_menu(Edition::ImportExport));
}

#[test]
fn find_gives_the_position_of_each_item() {
    let menu = build_menu(Edition::Share);
    assert_eq!(menu.find("about_shirt_tracker"), Some((0, 0)));
    assert_eq!(menu.find("icon_credits"), Some((0, 1)));
    assert_eq!(menu.find("quit_app"), Some((0, 2)));
    assert_eq!(menu.find("share_csv"), Some((1, 0)));
    assert_eq!(menu.find("event_log"), Some((1, 1)));

    let menu = build_menu(Edition::ImportExport);
    assert_eq!(menu.find("about_shirt_tracker"), Some((0, 0)));
    assert_eq!(menu.find("quit_app"), Some((0, 1)));
    assert_eq!(menu.find("export_csv"), Some((1, 0)));
    assert_eq!(menu.find("import_csv"), Some((1, 1)));
    assert_eq!(menu.find("event_log"), Some((1, 2)));
}

#[test]
fn find_agrees_with_a_walk_over_the_menu() {
    for edition in [Edition::ImportExport, Edition::Share] {
        let menu = build_menu(edition);
        for (s, submenu) in menu.submenus.iter().enumerate() {
            for (i, item) in submenu.items.iter().enumerate() {
                assert_eq!(menu.find(item.id), Some((s, i)));
            }
        }
    }
}

#[test]
fn find_misses_what_is_not_declared() {
    let menu = build_menu(Edition::Share);
    assert_eq!(menu.find("export_csv"), None);
    assert_eq!(menu.find("import_csv"), None);
    assert_eq!(menu.find(""), None);
    assert_eq!(menu.find("Quit"), None);
    assert_eq!(menu.find("quit_app "), None);
    assert_eq!(menu.find("File"), None);

    let menu = build_menu(Edition::ImportExport);
    assert_eq!(menu.find("share_csv"), None);
    assert_eq!(menu.find("icon_credits"), None);
}

#[test]
fn find_in_an_empty_menu() {
    let menu = Menu { submenus: Vec::new() };
    assert_eq!(menu.find("quit_app"), None);
    let menu = Menu {
        submenus: vec![Submenu { label: "File", enabled: true, items: Vec::new() }],
    };
    assert_eq!(menu.find("quit_app"), None);
}

#[test]
fn find_gives_the_first_of_two_equal_identifiers() {
    let menu = Menu {
        submenus: vec![
            Submenu { label: "Empty", enabled: false, items: Vec::new() },
            Submenu {
                label: "First",
                enabled: true,
                items: vec![
                    MenuItem::with_id("a", "A", true, None),
                    MenuItem::with_id("b", "B", false, None),
                    MenuItem::with_id("a", "A again", true, None),
                ],
            },
            Submenu {
                label: "Second",
                enabled: true,
                items: vec![
                    MenuItem::with_id("b", "B again", true, None),
                    MenuItem::with_id("c", "C", true, Some("Ctrl+C")),
                ],
            },
        ],
    };
    assert_eq!(menu.find("a"), Some((1, 0)));
    assert_eq!(menu.find("b"), Some((1, 1)));
    assert_eq!(menu.find("c"), Some((2, 1)));
    assert_eq!(menu.find("d"), None);
}

#[test]
fn with_id_keeps_what_it_is_given() {
    let item = MenuItem::with_id("quit_app", "Quit", true, Some("Cmd+Q"));
    assert_eq!(item.id, "quit_app");
    assert_eq!(item.label, "Quit");
    assert!(item.enabled);
    assert_eq!(item.accelerator, Some("Cmd+Q"));

    let item = MenuItem::with_id("event_log", "Event Log", false, None);
    assert_eq!(item.id, "event_log");
    assert_eq!(item.label, "Event Log");
    assert!(!item.enabled);
    assert_eq!(item.accelerator, None);
}

#[test]
fn with_items_keeps_the_order_given() {
    let first = MenuItem::with_id("z", "Last letter", true, None);
    let second = MenuItem::with_id("a", "First letter", false, Some("Ctrl+A"));
    let third = MenuItem::with_id("m", "Middle letter", true, None);
    let submenu = Submenu::with_items("Letters", false, vec![first, second, third]);
    assert_eq!(submenu.label, "Letters");
    assert!(!submenu.enabled);
    assert_eq!(submenu.items, vec![first, second, third]);
    assert_eq!(ids(&submenu), vec!["z", "a", "m"]);

    let other = Submenu::with_items("Reversed", true, vec![third, second, first]);
    assert_eq!(ids(&other), vec!["m", "a", "z"]);

    let menu = Menu::with_items(vec![other.clone(), submenu.clone()]);
    assert_eq!(menu.submenus, vec![other, submenu]);
}

#[test]
fn with_items_of_nothing_is_empty() {
    let submenu = Submenu::with_items("Empty", true, Vec::new());
    assert!(submenu.items.is_empty());
    let menu = Menu::with_items(Vec::new());
    assert!(menu.submenus.is_empty());
}
