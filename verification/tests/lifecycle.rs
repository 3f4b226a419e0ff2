use status_bar::menus::CallbackBridge;
use status_bar::menus::Menu;
use status_bar::menus::MenuItem;
use status_bar::refresh::refresh_status;
use status_bar::refresh::render_station_line;
use status_bar::refresh::render_title;
use status_bar::refresh::render_trip_line;
use status_bar::refresh::StateSnapshot;
use status_bar::registry::NativeRegistry;
use status_bar::status::StatusItem;

#[test]
fn construct_menu() {
    let mut reg = NativeRegistry::new();
    let sub_a = MenuItem::new(&mut reg, String::from("003"), None, None);
    let sub_b = MenuItem::new(&mut reg, String::from("004"), None, None);
    let inner = Menu::new(&mut reg, vec![sub_a, sub_b]);
    let cb = CallbackBridge::new(&mut reg);
    let items = vec![
        MenuItem::new(&mut reg, String::from("001"), None, None),
        MenuItem::new(&mut reg, String::from("002"), None, Some(inner)),
        MenuItem::new(&mut reg, String::from("005"), Some(cb), None),
    ];
    let menu = Menu::new(&mut reg, items);
    let status_item = StatusItem::new(&mut reg, String::from("000"), menu);

    assert_eq!(status_item.title(), "000");

    let menu = status_item.menu();
    assert_eq!(menu.items().len(), 3);
    assert_eq!(reg.child_count_of(menu.handle), 3);

    assert_eq!(menu.items()[0].title(), "001");
    assert_eq!(reg.title_of(menu.items()[0].handle), "001");

    let item = &menu.items()[0];
    assert_eq!(reg.child_at(menu.handle, 0), item.handle);
    assert!(item.callback.is_none());
    assert!(!reg.has_target(item.handle));
    assert!(item.submenu().is_none());

    let item = &menu.items()[1];
    assert!(item.callback.is_none());
    let sub = item.submenu().unwrap();
    assert_eq!(sub.items().len(), 2);
    assert_eq!(reg.child_count_of(sub.handle), 2);

    let item = &menu.items()[2];
    assert!(item.submenu().is_none());
    assert!(reg.has_target(item.handle));
    assert!(item.callback.is_some());
}

#[test]
fn reset_menu() {
    let mut reg = NativeRegistry::new();
    let first_menu = Menu::new(&mut reg, vec![]);
    let first_handle = first_menu.handle;
    assert_eq!(reg.retain_count_of(first_handle), 1);

    let mut status_item = StatusItem::new(&mut reg, String::from("000"), first_menu);
    assert_eq!(reg.attached_menu_of(status_item.slot), Some(first_handle));
    assert_eq!(reg.retain_count_of(first_handle), 2);

    let second_menu = Menu::new(&mut reg, vec![]);
    let second_handle = second_menu.handle;
    assert_eq!(reg.retain_count_of(second_handle), 1);

    status_item.set_menu(&mut reg, second_menu);
    assert_eq!(reg.attached_menu_of(status_item.slot), Some(second_handle));
    assert_eq!(reg.retain_count_of(second_handle), 2);
    // the previously attached menu is fully torn down: nothing holds it
    assert_eq!(reg.retain_count_of(first_handle), 0);
}

#[test]
fn reset_title() {
    let mut reg = NativeRegistry::new();
    let menu = Menu::new(&mut reg, vec![]);
    let mut status_item = StatusItem::new(&mut reg, String::from("000"), menu);
    assert_eq!(status_item.title(), "000");

    status_item.set_title(&mut reg, String::from("001"));
    assert_eq!(status_item.title(), "001");
    assert_eq!(reg.title_of(status_item.slot), "001");
}

#[test]
fn click_menu() {
    let mut reg = NativeRegistry::new();
    let cb = CallbackBridge::new(&mut reg);
    let trampoline = cb.trampoline;
    let item = MenuItem::new(&mut reg, String::from("001"), Some(cb), None);
    let item_handle = item.handle;
    let menu = Menu::new(&mut reg, vec![item]);
    let status_item = StatusItem::new(&mut reg, String::from("000"), menu);

    assert!(reg.has_target(item_handle));
    assert_eq!(reg.clicks_of(trampoline), 0);
    reg.click(item_handle);
    assert_eq!(reg.clicks_of(trampoline), 1);
    reg.click(item_handle);
    assert_eq!(reg.clicks_of(trampoline), 2);
    drop(status_item);
}

#[test]
fn clicks_never_coalesce() {
    let mut reg = NativeRegistry::new();
    let cb = CallbackBridge::new(&mut reg);
    let trampoline = cb.trampoline;
    let item = MenuItem::new(&mut reg, String::from("tick"), Some(cb), None);
    for expected in 1..=5usize {
        reg.click(item.handle);
        assert_eq!(reg.clicks_of(trampoline), expected);
    }
}

#[test]
fn menu_child_count_matches_items() {
    let mut reg = NativeRegistry::new();
    for n in [0usize, 1, 5] {
        let mut items = Vec::new();
        for i in 0..n {
            items.push(MenuItem::new(&mut reg, format!("item {i}"), None, None));
        }
        let menu = Menu::new(&mut reg, items);
        assert_eq!(menu.items().len(), n);
        assert_eq!(reg.child_count_of(menu.handle) as usize, n);
    }
}

#[test]
fn dispose_nested_menu_leaves_nothing_dangling() {
    let mut reg = NativeRegistry::new();
    let leaf = MenuItem::new(&mut reg, String::from("C"), None, None);
    let inner = Menu::new(&mut reg, vec![leaf]);
    let item_a = MenuItem::new(&mut reg, String::from("A"), None, None);
    let item_b = MenuItem::new(&mut reg, String::from("B"), None, Some(inner));
    let outer = Menu::new(&mut reg, vec![item_a, item_b]);
    assert_eq!(outer.items().len(), 2);
    assert_eq!(outer.items()[1].submenu().unwrap().items().len(), 1);

    let mut handles = vec![outer.handle];
    for item in outer.items() {
        handles.push(item.handle);
        if let Some(sub) = item.submenu() {
            handles.push(sub.handle);
            for sub_item in sub.items() {
                handles.push(sub_item.handle);
            }
        }
    }
    outer.dispose(&mut reg);
    for h in handles {
        // zero references left, and the dead object holds no references
        assert_eq!(reg.retain_count_of(h), 0);
        assert_eq!(reg.child_count_of(h), 0);
    }
}

#[test]
fn refresh_is_idempotent() {
    let mut reg = NativeRegistry::new();
    let menu = Menu::new(&mut reg, vec![]);
    let mut status_item = StatusItem::new(&mut reg, String::new(), menu);
    let snapshot = StateSnapshot {
        speed: String::from("120"),
        next_station_name: String::from("St. Poelten Hbf"),
        forecast_arrival: String::from("12:34"),
        train_type: String::from("RJ"),
        trip_number: String::from("42"),
        destination_name: String::from("Wien Hbf"),
    };

    refresh_status(&mut status_item, &mut reg, &snapshot);
    let first_title = status_item.title().clone();
    let first_lines: Vec<String> =
        status_item.menu().items().iter().map(|i| i.title().clone()).collect();

    refresh_status(&mut status_item, &mut reg, &snapshot);
    let second_title = status_item.title().clone();
    let second_lines: Vec<String> =
        status_item.menu().items().iter().map(|i| i.title().clone()).collect();

    assert_eq!(first_title, "120 km/h");
    assert_eq!(first_lines.len(), 3);
    assert_eq!(first_lines[0], "On RJ 42 to Wien Hbf");
    assert_eq!(first_lines[1], "Next station: St. Poelten Hbf at 12:34");
    assert_eq!(first_lines[2], "Go to dashboard");
    assert_eq!(first_title, second_title);
    assert_eq!(first_lines, second_lines);
}

#[test]
fn render_formulas() {
    let snapshot = StateSnapshot {
        speed: String::from("0"),
        next_station_name: String::from("A"),
        forecast_arrival: String::from("B"),
        train_type: String::from("C"),
        trip_number: String::from("D"),
        destination_name: String::from("E"),
    };
    assert_eq!(render_title(&snapshot), "0 km/h");
    assert_eq!(render_trip_line(&snapshot), "On C D to E");
    assert_eq!(render_station_line(&snapshot), "Next station: A at B");
}

#[test]
fn set_image_records_symbol() {
    let mut reg = NativeRegistry::new();
    let menu = Menu::new(&mut reg, vec![]);
    let mut status_item = StatusItem::new(&mut reg, String::from("000"), menu);
    status_item.set_image(&mut reg, String::from("tram.fill"));
    assert_eq!(reg.retain_count_of(status_item.slot), 1);
}
