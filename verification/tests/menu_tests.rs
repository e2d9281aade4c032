use right_click_manager::menu::{
    item_from_raw, items_from_raw, list_rows, status_text, MenuItem, MenuItemForm, RawKey,
};

fn s(x: &str) -> String {
    x.to_string()
}

fn raw(name: &str) -> RawKey {
    RawKey {
        name: s(name),
        opened: true,
        default_text: Some(s("Display")),
        command_text: Some(s("cmd.exe")),
        icon_text: Some(s("icon.ico")),
        legacy_disable: false,
    }
}

#[test]
fn blank_form_is_incomplete() {
    let f = MenuItemForm::default();
    assert_eq!(f.key_name, "");
    assert_eq!(f.icon, "");
    assert!(!f.is_complete());
}

#[test]
fn form_needs_key_display_and_command() {
    let full = MenuItemForm { key_name: s("k"), display_name: s("d"), command: s("c"), icon: s("") };
    assert!(full.is_complete());
    let mut f = full.clone();
    f.key_name = s("");
    assert!(!f.is_complete());
    let mut f = full.clone();
    f.display_name = s("");
    assert!(!f.is_complete());
    let mut f = full.clone();
    f.command = s("");
    assert!(!f.is_complete());
}

#[test]
fn edit_form_takes_item_fields_and_empty_icon() {
    let item = MenuItem { name: s("k"), display_name: s("d"), command: s("c"), icon: None, disabled: true };
    let f = MenuItemForm::from_item(&item);
    assert_eq!(f, MenuItemForm { key_name: s("k"), display_name: s("d"), command: s("c"), icon: s("") });
    let item = MenuItem { icon: Some(s("i.ico")), ..item };
    assert_eq!(MenuItemForm::from_item(&item).icon, "i.ico");
}

#[test]
fn unopened_key_gives_no_item() {
    let r = RawKey { opened: false, ..raw("x") };
    assert_eq!(item_from_raw(&r), None);
}

#[test]
fn full_raw_key_gives_its_values() {
    let m = item_from_raw(&raw("k")).unwrap();
    assert_eq!(
        m,
        MenuItem {
            name: s("k"),
            display_name: s("Display"),
            command: s("cmd.exe"),
            icon: Some(s("icon.ico")),
            disabled: false,
        }
    );
}

#[test]
fn missing_values_fall_back() {
    let r = RawKey {
        default_text: None,
        command_text: None,
        icon_text: Some(s("")),
        legacy_disable: true,
        ..raw("KeyName")
    };
    let m = item_from_raw(&r).unwrap();
    assert_eq!(m.display_name, "KeyName");
    assert_eq!(m.command, "");
    assert_eq!(m.icon, None);
    assert!(m.disabled);
    let r = RawKey { icon_text: None, ..raw("k") };
    assert_eq!(item_from_raw(&r).unwrap().icon, None);
}

#[test]
fn items_keep_order_and_skip_unopened() {
    let raws = vec![raw("a"), RawKey { opened: false, ..raw("b") }, raw("c")];
    let items = items_from_raw(&raws);
    let names: Vec<&str> = items.iter().map(|m| m.name.as_str()).collect();
    assert_eq!(names, vec!["a", "c"]);
    assert!(items_from_raw(&vec![]).is_empty());
}

#[test]
fn status_texts() {
    assert_eq!(status_text(true), "已禁用");
    assert_eq!(status_text(false), "已启用");
}

#[test]
fn list_rows_show_display_key_command_status() {
    let items = vec![
        MenuItem { name: s("k1"), display_name: s("d1"), command: s("c1"), icon: None, disabled: false },
        MenuItem { name: s("k2"), display_name: s("d2"), command: s("c2"), icon: None, disabled: true },
    ];
    let rows = list_rows(&items);
    assert_eq!(rows.len(), 2);
    assert_eq!(rows[0].display_name, "d1");
    assert_eq!(rows[0].key_name, "k1");
    assert_eq!(rows[0].command, "c1");
    assert_eq!(rows[0].status, "已启用");
    assert_eq!(rows[1].status, "已禁用");
}
