use tao::error::OsError;
use tao::menu::{CustomMenuItem, MenuItem, NativeMenuItem};
use tao::system_tray::{SystemTray, ICON_EDGE};

fn custom(id: u32, name: &str) -> MenuItem {
    MenuItem::Custom(CustomMenuItem {
        id,
        name: name.to_string(),
        keyboard_accelerator: None,
    })
}

fn names_and_ids(menu: &[NativeMenuItem]) -> Vec<(Option<u32>, String)> {
    menu.iter()
        .map(|item| match item {
            NativeMenuItem::Custom { id, title, .. } => (Some(*id), title.clone()),
            NativeMenuItem::Placeholder { title } => (None, title.clone()),
        })
        .collect()
}

#[test]
fn initialize_attaches_the_built_menu() {
    let tray = SystemTray::new(vec![1, 2, 3], vec![custom(1, "Open"), custom(2, "Quit")]);
    let controller = tray.initialize(true, true).unwrap();
    assert!(controller.status_item_live);
    assert_eq!(controller.icon, vec![1, 2, 3]);
    let menu = controller.attached_menu.as_ref().unwrap();
    assert_eq!(menu.len(), 2);
}

#[test]
fn initialize_without_status_bar_fails() {
    let tray = SystemTray::new(vec![0], vec![custom(1, "Open")]);
    assert_eq!(tray.initialize(false, true).err(), Some(OsError::StatusBarUnavailable));
    assert_eq!(tray.initialize(false, false).err(), Some(OsError::StatusBarUnavailable));
}

#[test]
fn initialize_with_bad_icon_fails() {
    let tray = SystemTray::new(vec![0], vec![custom(1, "Open")]);
    assert_eq!(tray.initialize(true, false).err(), Some(OsError::ImageConstructionFailed));
}

#[test]
fn initialize_with_colliding_ids_fails() {
    let tray = SystemTray::new(vec![0], vec![custom(4, "A"), custom(4, "B")]);
    assert_eq!(tray.initialize(true, true).err(), Some(OsError::DuplicateMenuItemId));
}

#[test]
fn failed_rebuild_keeps_the_old_menu_attached() {
    let tray = SystemTray::new(vec![9], vec![custom(1, "Open"), custom(2, "Quit")]);
    let mut controller = tray.initialize(true, true).unwrap();
    let before = names_and_ids(controller.attached_menu.as_ref().unwrap());

    let colliding = vec![custom(6, "New"), custom(6, "Also new")];
    let r = controller.rebuild_menu(&colliding);
    assert_eq!(r, Err(OsError::DuplicateMenuItemId));

    let after = controller.attached_menu.as_ref().expect("a menu must stay attached");
    assert_eq!(names_and_ids(after), before);
    assert!(controller.status_item_live);
}

#[test]
fn successful_rebuild_replaces_the_menu_wholesale() {
    let tray = SystemTray::new(vec![9], vec![custom(1, "Open")]);
    let mut controller = tray.initialize(true, true).unwrap();
    let next = vec![custom(2, "Close"), custom(3, "Quit")];
    controller.rebuild_menu(&next).unwrap();
    let menu = controller.attached_menu.as_ref().unwrap();
    assert_eq!(
        names_and_ids(menu),
        vec![(Some(2), "Close".to_string()), (Some(3), "Quit".to_string())]
    );
}

#[test]
fn rebuilding_from_identical_input_round_trips() {
    let icon = vec![7, 7, 7];
    let items = vec![custom(1, "Open"), custom(2, "Quit")];
    let tray = SystemTray::new(icon.clone(), items.clone());

    let first = tray.initialize(true, true).unwrap();
    let first_view = names_and_ids(first.attached_menu.as_ref().unwrap());

    let again = SystemTray::new(icon, items.clone());
    let mut second = again.initialize(true, true).unwrap();
    assert_eq!(names_and_ids(second.attached_menu.as_ref().unwrap()), first_view);

    second.rebuild_menu(&items).unwrap();
    assert_eq!(names_and_ids(second.attached_menu.as_ref().unwrap()), first_view);
}

#[test]
fn icon_footprint_is_a_fixed_square() {
    assert_eq!(ICON_EDGE, 18);
}
