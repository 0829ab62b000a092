use tao::error::OsError;
use tao::event::ModifiersState;
use tao::menu::{
    build_menu, menu_action_target, CustomMenuItem, MenuItem, NativeMenuItem, NativeMenuItemKind,
};

fn custom(id: u32, name: &str, accelerator: Option<&str>) -> MenuItem {
    MenuItem::Custom(CustomMenuItem {
        id,
        name: name.to_string(),
        keyboard_accelerator: accelerator.map(|a| a.to_string()),
    })
}

#[test]
fn build_keeps_order_ids_and_names() {
    let items = vec![custom(1, "Open", None), custom(2, "Quit", None)];
    let menu = build_menu(&items).unwrap();
    assert_eq!(menu.len(), 2);
    match &menu[0] {
        NativeMenuItem::Custom { id, title, key_equivalent } => {
            assert_eq!(*id, 1);
            assert_eq!(title, "Open");
            assert!(key_equivalent.is_none());
        }
        _ => panic!("expected a custom item"),
    }
    match &menu[1] {
        NativeMenuItem::Custom { id, title, .. } => {
            assert_eq!(*id, 2);
            assert_eq!(title, "Quit");
        }
        _ => panic!("expected a custom item"),
    }
}

#[test]
fn build_parses_the_accelerator() {
    let items = vec![custom(7, "Save", Some("<Primary><Shift>S"))];
    let menu = build_menu(&items).unwrap();
    match &menu[0] {
        NativeMenuItem::Custom { key_equivalent: Some(k), .. } => {
            assert_eq!(
                k.masks,
                Some(ModifiersState { shift: true, ctrl: false, alt: false, logo: true })
            );
            assert_eq!(k.key, vec!['S']);
        }
        _ => panic!("expected a custom item with a key equivalent"),
    }
}

#[test]
fn build_degrades_native_kinds_to_placeholders() {
    let items = vec![
        MenuItem::Native(NativeMenuItemKind::Separator),
        custom(1, "About", None),
        MenuItem::Native(NativeMenuItemKind::Quit),
    ];
    let menu = build_menu(&items).unwrap();
    assert_eq!(menu.len(), 3);
    assert!(matches!(&menu[0], NativeMenuItem::Placeholder { title } if title == "Not supported"));
    assert!(matches!(&menu[1], NativeMenuItem::Custom { .. }));
    assert!(matches!(&menu[2], NativeMenuItem::Placeholder { title } if title == "Not supported"));
}

#[test]
fn build_rejects_colliding_ids() {
    let items = vec![custom(3, "One", None), custom(5, "Two", None), custom(3, "Three", None)];
    let r = build_menu(&items);
    assert_eq!(r, Err(OsError::DuplicateMenuItemId));
}

#[test]
fn build_allows_equal_ids_on_distinct_menus() {
    let first = vec![custom(3, "One", None)];
    let second = vec![custom(3, "Uno", None)];
    assert!(build_menu(&first).is_ok());
    assert!(build_menu(&second).is_ok());
}

#[test]
fn action_target_finds_exactly_one_item() {
    let items = vec![
        MenuItem::Native(NativeMenuItemKind::Separator),
        custom(10, "Open", None),
        custom(11, "Quit", None),
    ];
    assert_eq!(menu_action_target(&items, 10), Some(1));
    assert_eq!(menu_action_target(&items, 11), Some(2));
    assert_eq!(menu_action_target(&items, 12), None);
}
