use right_click_manager::menu::MenuItemForm;
use right_click_manager::model::{continue_after, OpOutcome};
use right_click_manager::registry::{
    command_path, create_plan, delete_plan, disable_plan, join_path, update_plan, RegOp,
};
use right_click_manager::utf16::reg_sz_data;

fn s(x: &str) -> String {
    x.to_string()
}

fn form(key: &str, icon: &str) -> MenuItemForm {
    MenuItemForm { key_name: s(key), display_name: s("Open"), command: s("app.exe \"%1\""), icon: s(icon) }
}

fn create(path: &str) -> RegOp {
    RegOp::CreateKey { key_path: s(path) }
}

fn set(path: &str, name: &str, text: &str, checked: bool) -> RegOp {
    RegOp::SetValue { key_path: s(path), name: s(name), data: reg_sz_data(text), checked }
}

#[test]
fn paths_join_with_backslash() {
    assert_eq!(join_path("*\\shell", "MyItem"), "*\\shell\\MyItem");
    assert_eq!(command_path("*\\shell\\MyItem"), "*\\shell\\MyItem\\command");
}

#[test]
fn create_plan_with_icon() {
    let ops = create_plan("Folder\\shell", &form("X", "x.ico"));
    assert_eq!(
        ops,
        vec![
            create("Folder\\shell\\X"),
            set("Folder\\shell\\X", "", "Open", true),
            set("Folder\\shell\\X", "Icon", "x.ico", true),
            create("Folder\\shell\\X\\command"),
            set("Folder\\shell\\X\\command", "", "app.exe \"%1\"", true),
        ]
    );
}

#[test]
fn create_plan_without_icon() {
    let ops = create_plan("Folder\\shell", &form("X", ""));
    assert_eq!(
        ops,
        vec![
            create("Folder\\shell\\X"),
            set("Folder\\shell\\X", "", "Open", true),
            create("Folder\\shell\\X\\command"),
            set("Folder\\shell\\X\\command", "", "app.exe \"%1\"", true),
        ]
    );
}

#[test]
fn update_same_key_deletes_empty_icon() {
    let ops = update_plan("Drive\\shell", &s("X"), &form("X", ""));
    assert_eq!(
        ops,
        vec![
            set("Drive\\shell\\X", "", "Open", true),
            RegOp::DeleteValue { key_path: s("Drive\\shell\\X"), name: s("Icon") },
            create("Drive\\shell\\X\\command"),
            set("Drive\\shell\\X\\command", "", "app.exe \"%1\"", true),
        ]
    );
    let ops = update_plan("Drive\\shell", &s("X"), &form("X", "i"));
    assert_eq!(ops[1], set("Drive\\shell\\X", "Icon", "i", true));
}

#[test]
fn update_with_new_key_deletes_old_then_creates() {
    let ops = update_plan("Drive\\shell", &s("Old"), &form("New", ""));
    assert_eq!(
        ops,
        vec![
            RegOp::DeleteTree { key_path: s("Drive\\shell\\Old") },
            create("Drive\\shell\\New"),
            set("Drive\\shell\\New", "", "Open", true),
            create("Drive\\shell\\New\\command"),
            set("Drive\\shell\\New\\command", "", "app.exe \"%1\"", true),
        ]
    );
}

#[test]
fn delete_plan_deletes_tree() {
    assert_eq!(
        delete_plan("*\\shell", "X"),
        vec![RegOp::DeleteTree { key_path: s("*\\shell\\X") }]
    );
}

#[test]
fn disable_plans() {
    assert_eq!(
        disable_plan("*\\shell", "X", true),
        vec![RegOp::SetValue {
            key_path: s("*\\shell\\X"),
            name: s("LegacyDisable"),
            data: vec![0],
            checked: false
        }]
    );
    assert_eq!(
        disable_plan("*\\shell", "X", false),
        vec![RegOp::DeleteValue { key_path: s("*\\shell\\X"), name: s("LegacyDisable") }]
    );
}

#[test]
fn plan_continuation_rules() {
    let checked = set("k", "", "v", true);
    let unchecked = set("k", "LegacyDisable", "", false);
    let del_value = RegOp::DeleteValue { key_path: s("k"), name: s("Icon") };
    let del_tree = RegOp::DeleteTree { key_path: s("k") };
    let create_key = create("k");
    assert!(continue_after(&create_key, OpOutcome::Done));
    assert!(!continue_after(&create_key, OpOutcome::OpenFailed));
    assert!(!continue_after(&create_key, OpOutcome::WriteFailed));
    assert!(continue_after(&checked, OpOutcome::Done));
    assert!(!continue_after(&checked, OpOutcome::OpenFailed));
    assert!(!continue_after(&checked, OpOutcome::WriteFailed));
    assert!(!continue_after(&unchecked, OpOutcome::OpenFailed));
    assert!(continue_after(&unchecked, OpOutcome::WriteFailed));
    assert!(!continue_after(&del_value, OpOutcome::OpenFailed));
    assert!(continue_after(&del_value, OpOutcome::WriteFailed));
    assert!(continue_after(&del_tree, OpOutcome::WriteFailed));
    assert!(continue_after(&del_tree, OpOutcome::OpenFailed));
}
