use std::cell::Cell;
use std::rc::Rc;

use vnkey_platform::tray::{SystemTray, SystemTrayMenuItemKey};

type Action = Box<dyn Fn()>;

fn counter() -> (Rc<Cell<u32>>, Action) {
    let count = Rc::new(Cell::new(0u32));
    let seen = count.clone();
    (count, Box::new(move || seen.set(seen.get() + 1)))
}

fn noop() -> Action {
    Box::new(|| ())
}

#[test]
fn new_tray_holds_standard_menu() {
    let tray: SystemTray<Action> = SystemTray::new(noop);
    assert_eq!(tray.title(), "VN");
    assert_eq!(tray.menu_len(), 8);
    assert_eq!(tray.item_title(0), Some("Bật bảng điều khiển"));
    assert_eq!(tray.item_title(1), None);
    assert_eq!(tray.item_title(2), Some("Tắt gõ tiếng việt"));
    assert_eq!(tray.item_title(3), None);
    assert_eq!(tray.item_title(4), Some("Telex ✓"));
    assert_eq!(tray.item_title(5), Some("VNI"));
    assert_eq!(tray.item_title(6), None);
    assert_eq!(tray.item_title(7), Some("Thoát ứng dụng"));
    for index in [0, 2, 4, 5, 7] {
        assert!(tray.item_action(index).is_some());
    }
    for index in [1, 3, 6, 8] {
        assert!(tray.item_action(index).is_none());
    }
}

#[test]
fn standard_items_get_fresh_actions() {
    let made = Rc::new(Cell::new(0u32));
    let seen = made.clone();
    let mut tray: SystemTray<Action> = SystemTray::with_label("VN");
    tray.add_menu_item("Z", noop());
    tray.init_menu_items(&move || -> Action {
        seen.set(seen.get() + 1);
        Box::new(|| ())
    });
    assert_eq!(made.get(), 5);
    assert_eq!(tray.menu_len(), 9);
    assert_eq!(tray.item_title(0), Some("Z"));
    assert_eq!(tray.item_title(1), Some("Bật bảng điều khiển"));
    assert_eq!(tray.item_title(8), Some("Thoát ứng dụng"));
}

#[test]
fn keys_map_to_standard_positions() {
    let tray: SystemTray<Action> = SystemTray::new(noop);
    assert_eq!(tray.get_menu_item_index_by_key(SystemTrayMenuItemKey::ShowUI), 0);
    assert_eq!(tray.get_menu_item_index_by_key(SystemTrayMenuItemKey::Enable), 2);
    assert_eq!(tray.get_menu_item_index_by_key(SystemTrayMenuItemKey::TypingMethodTelex), 4);
    assert_eq!(tray.get_menu_item_index_by_key(SystemTrayMenuItemKey::TypingMethodVNI), 5);
    assert_eq!(tray.get_menu_item_index_by_key(SystemTrayMenuItemKey::Exit), 7);
}

#[test]
fn set_title_replaces_label() {
    let mut tray: SystemTray<Action> = SystemTray::new(noop);
    tray.set_title("EN");
    assert_eq!(tray.title(), "EN");
    assert_eq!(tray.menu_len(), 8);
}

#[test]
fn retitle_touches_only_keyed_item() {
    let mut tray: SystemTray<Action> = SystemTray::with_label("VN");
    assert_eq!(tray.menu_len(), 0);
    tray.add_menu_item("A", Box::new(|| ()));
    tray.add_menu_separator();
    tray.add_menu_item("B", Box::new(|| ()));
    tray.add_menu_separator();
    tray.add_menu_item("C", Box::new(|| ()));
    tray.set_menu_item_title(SystemTrayMenuItemKey::Enable, "X");
    assert_eq!(tray.item_title(0), Some("A"));
    assert_eq!(tray.item_title(2), Some("X"));
    assert_eq!(tray.item_title(4), Some("C"));
    assert_eq!(tray.menu_len(), 5);
}

#[test]
fn retitle_past_end_is_skipped() {
    let mut tray: SystemTray<Action> = SystemTray::with_label("VN");
    tray.add_menu_item("A", Box::new(|| ()));
    tray.set_menu_item_title(SystemTrayMenuItemKey::Exit, "X");
    assert_eq!(tray.menu_len(), 1);
    assert_eq!(tray.item_title(0), Some("A"));
}

#[test]
fn retitle_of_separator_is_skipped() {
    let mut tray: SystemTray<Action> = SystemTray::with_label("VN");
    tray.add_menu_separator();
    tray.add_menu_separator();
    tray.add_menu_separator();
    tray.set_menu_item_title(SystemTrayMenuItemKey::Enable, "X");
    assert_eq!(tray.item_title(2), None);
    assert_eq!(tray.menu_len(), 3);
}

#[test]
fn click_after_rebind_runs_new_action_only() {
    let mut tray: SystemTray<Action> = SystemTray::new(noop);
    let (first, first_action) = counter();
    let (second, second_action) = counter();
    tray.set_menu_item_callback(SystemTrayMenuItemKey::Exit, first_action);
    (tray.item_action(7).unwrap())();
    tray.set_menu_item_callback(SystemTrayMenuItemKey::Exit, second_action);
    (tray.item_action(7).unwrap())();
    (tray.item_action(7).unwrap())();
    assert_eq!(first.get(), 1);
    assert_eq!(second.get(), 2);
    assert_eq!(Rc::strong_count(&first), 1);
    assert_eq!(tray.item_title(7), Some("Thoát ứng dụng"));
    assert!(tray.item_action(6).is_none());
}

#[test]
fn rebind_past_end_is_skipped() {
    let mut tray: SystemTray<Action> = SystemTray::with_label("VN");
    let (count, action) = counter();
    tray.set_menu_item_callback(SystemTrayMenuItemKey::ShowUI, action);
    assert_eq!(tray.menu_len(), 0);
    assert!(tray.item_action(0).is_none());
    assert_eq!(Rc::strong_count(&count), 1);
}

#[test]
fn added_item_runs_its_action() {
    let mut tray: SystemTray<Action> = SystemTray::with_label("VN");
    let (count, action) = counter();
    tray.add_menu_separator();
    tray.add_menu_item("Go", action);
    assert!(tray.item_action(0).is_none());
    (tray.item_action(1).unwrap())();
    assert_eq!(count.get(), 1);
    assert!(tray.item_action(2).is_none());
}
