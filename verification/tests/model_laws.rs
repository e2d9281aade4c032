use right_click_manager::menu::{item_from_raw, MenuItem, MenuItemForm, RawKey};
use right_click_manager::model::{continue_after, OpOutcome};
use right_click_manager::registry::{
    create_plan, delete_plan, disable_plan, join_path, update_plan, RegOp, VALUE_BUFFER_UNITS,
};
use right_click_manager::utf16::reg_sz_text;
use std::collections::BTreeMap;

type Values = BTreeMap<String, Vec<u16>>;

#[derive(Clone, Debug, PartialEq)]
struct Reg {
    keys: BTreeMap<String, Values>,
}

impl Reg {
    fn with_keys(paths: &[&str]) -> Reg {
        let mut keys = BTreeMap::new();
        for p in paths {
            keys.insert(p.to_string(), Values::new());
        }
        Reg { keys }
    }

    fn apply(&mut self, op: &RegOp) -> OpOutcome {
        match op {
            RegOp::CreateKey { key_path } => {
                for (i, c) in key_path.char_indices() {
                    if c == '\\' {
                        self.keys.entry(key_path[..i].to_string()).or_default();
                    }
                }
                self.keys.entry(key_path.clone()).or_default();
                OpOutcome::Done
            }
            RegOp::SetValue { key_path, name, data, .. } => match self.keys.get_mut(key_path) {
                Some(v) => {
                    v.insert(name.clone(), data.clone());
                    OpOutcome::Done
                }
                None => OpOutcome::OpenFailed,
            },
            RegOp::DeleteValue { key_path, name } => match self.keys.get_mut(key_path) {
                Some(v) => {
                    if v.remove(name).is_some() {
                        OpOutcome::Done
                    } else {
                        OpOutcome::WriteFailed
                    }
                }
                None => OpOutcome::OpenFailed,
            },
            RegOp::DeleteTree { key_path } => {
                let existed = self.keys.contains_key(key_path);
                let prefix = format!("{}\\", key_path);
                self.keys.retain(|p, _| p != key_path && !p.starts_with(&prefix));
                if existed {
                    OpOutcome::Done
                } else {
                    OpOutcome::WriteFailed
                }
            }
        }
    }

    fn run(&mut self, ops: &[RegOp]) -> bool {
        for op in ops {
            let outcome = self.apply(op);
            if !continue_after(op, outcome) {
                return false;
            }
        }
        true
    }

    fn query(values: &Values, name: &str) -> Option<String> {
        let data = values.get(name)?;
        if data.len() > VALUE_BUFFER_UNITS {
            return None;
        }
        let mut buf = vec![0u16; VALUE_BUFFER_UNITS];
        buf[..data.len()].copy_from_slice(data);
        Some(reg_sz_text(&buf, (data.len() * 2) as u32))
    }

    fn list(&self, ctx: &str) -> Vec<String> {
        let prefix = format!("{}\\", ctx);
        let names: Vec<&str> = self
            .keys
            .keys()
            .filter_map(|k| k.strip_prefix(&prefix))
            .filter(|n| !n.contains('\\'))
            .collect();
        names.iter().filter_map(|n| self.read(ctx, n)).map(|m| m.name).collect()
    }

    fn read(&self, ctx: &str, key: &str) -> Option<MenuItem> {
        let kp = join_path(ctx, key);
        let cp = join_path(&kp, "command");
        let empty = Values::new();
        let vals = self.keys.get(&kp).unwrap_or(&empty);
        let raw = RawKey {
            name: key.to_string(),
            opened: self.keys.contains_key(&kp),
            default_text: Reg::query(vals, ""),
            command_text: self.keys.get(&cp).and_then(|v| Reg::query(v, "")),
            icon_text: Reg::query(vals, "Icon"),
            legacy_disable: vals.contains_key("LegacyDisable"),
        };
        item_from_raw(&raw)
    }
}

const CTX: &str = "*\\shell";

fn form(key: &str, icon: &str) -> MenuItemForm {
    MenuItemForm {
        key_name: key.to_string(),
        display_name: "Open here".to_string(),
        command: "app.exe \"%1\"".to_string(),
        icon: icon.to_string(),
    }
}

#[test]
fn created_item_reads_back_with_nul_terminated_texts() {
    let mut reg = Reg::with_keys(&["*\\shell", "*\\shell\\Item", "*\\shell\\Item\\command"]);
    assert!(reg.run(&create_plan(CTX, &form("Item", "i.ico"))));
    let m = reg.read(CTX, "Item").unwrap();
    assert_eq!(m.display_name, "Open here\0");
    assert_eq!(m.command, "app.exe \"%1\"\0");
    assert_eq!(m.icon, Some("i.ico\0".to_string()));
    assert!(!m.disabled);
}

#[test]
fn create_makes_a_new_item_under_the_context_only() {
    let mut reg = Reg::with_keys(&["*", "*\\shell", "*\\shell\\Other"]);
    assert!(reg.run(&create_plan(CTX, &form("New", ""))));
    let m = reg.read(CTX, "New").unwrap();
    assert_eq!(m.display_name, "Open here\0");
    assert_eq!(m.command, "app.exe \"%1\"\0");
    assert_eq!(m.icon, None);
    assert!(!m.disabled);
    let keys: Vec<&str> = reg.keys.keys().map(|k| k.as_str()).collect();
    assert_eq!(
        keys,
        vec!["*", "*\\shell", "*\\shell\\New", "*\\shell\\New\\command", "*\\shell\\Other"]
    );
}

#[test]
fn create_adds_a_missing_command_key() {
    let mut reg = Reg::with_keys(&["*\\shell", "*\\shell\\Item"]);
    assert!(reg.run(&create_plan(CTX, &form("Item", ""))));
    assert_eq!(reg.read(CTX, "Item").unwrap().command, "app.exe \"%1\"\0");
}

#[test]
fn refresh_lists_an_added_item_and_drops_a_deleted_one() {
    let mut reg = Reg::with_keys(&["*\\shell", "*\\shell\\A"]);
    assert!(reg.run(&create_plan(CTX, &form("B", ""))));
    assert_eq!(reg.list(CTX), vec!["A".to_string(), "B".to_string()]);
    assert!(reg.run(&delete_plan(CTX, "A")));
    assert_eq!(reg.list(CTX), vec!["B".to_string()]);
}

#[test]
fn deleted_item_reads_absent_and_siblings_stay() {
    let mut reg = Reg::with_keys(&[
        "*\\shell",
        "*\\shell\\A",
        "*\\shell\\A\\command",
        "*\\shell\\AB",
        "*\\shell\\AB\\command",
    ]);
    assert!(reg.run(&create_plan(CTX, &form("AB", ""))));
    let ab = reg.read(CTX, "AB");
    assert!(reg.run(&delete_plan(CTX, "A")));
    assert_eq!(reg.read(CTX, "A"), None);
    assert!(!reg.keys.contains_key("*\\shell\\A\\command"));
    assert_eq!(reg.read(CTX, "AB"), ab);
    assert!(reg.run(&delete_plan(CTX, "Missing")));
}

#[test]
fn disabling_and_enabling_read_back() {
    let mut reg = Reg::with_keys(&["*\\shell", "*\\shell\\X", "*\\shell\\X\\command"]);
    assert!(reg.run(&create_plan(CTX, &form("X", ""))));
    let before = reg.read(CTX, "X").unwrap();
    assert!(reg.run(&disable_plan(CTX, "X", true)));
    assert_eq!(reg.read(CTX, "X").unwrap(), MenuItem { disabled: true, ..before.clone() });
    assert!(reg.run(&disable_plan(CTX, "X", false)));
    assert_eq!(reg.read(CTX, "X").unwrap(), before);
    assert!(reg.run(&disable_plan(CTX, "X", false)));
    let mut missing = Reg::with_keys(&["*\\shell"]);
    assert!(!missing.run(&disable_plan(CTX, "X", true)));
}

#[test]
fn toggling_twice_restores_the_item() {
    let mut reg = Reg::with_keys(&["*\\shell", "*\\shell\\X", "*\\shell\\X\\command"]);
    let m0 = reg.read(CTX, "X").unwrap();
    assert!(reg.run(&disable_plan(CTX, "X", !m0.disabled)));
    let m1 = reg.read(CTX, "X").unwrap();
    assert!(reg.run(&disable_plan(CTX, "X", !m1.disabled)));
    assert_eq!(reg.read(CTX, "X").unwrap(), m0);
}

#[test]
fn update_with_empty_icon_removes_icon() {
    let mut reg = Reg::with_keys(&["*\\shell", "*\\shell\\X", "*\\shell\\X\\command"]);
    assert!(reg.run(&create_plan(CTX, &form("X", "i.ico"))));
    assert!(reg.run(&update_plan(CTX, &"X".to_string(), &form("X", ""))));
    assert_eq!(reg.read(CTX, "X").unwrap().icon, None);
}

#[test]
fn rename_removes_the_old_item() {
    let mut reg = Reg::with_keys(&[
        "*\\shell",
        "*\\shell\\Old",
        "*\\shell\\Old\\command",
        "*\\shell\\New",
        "*\\shell\\New\\command",
    ]);
    assert!(reg.run(&update_plan(CTX, &"Old".to_string(), &form("New", ""))));
    assert_eq!(reg.read(CTX, "Old"), None);
    assert_eq!(reg.read(CTX, "New").unwrap().display_name, "Open here\0");
    let mut lone = Reg::with_keys(&["*\\shell", "*\\shell\\Old"]);
    assert!(lone.run(&update_plan(CTX, &"Old".to_string(), &form("New", ""))));
    assert_eq!(lone.read(CTX, "Old"), None);
    assert_eq!(lone.read(CTX, "New").unwrap().display_name, "Open here\0");
}

#[test]
fn key_without_default_value_reads_as_its_name() {
    let reg = Reg::with_keys(&["*\\shell", "*\\shell\\Bare"]);
    let m = reg.read(CTX, "Bare").unwrap();
    assert_eq!(m.display_name, "Bare");
    assert_eq!(m.command, "");
    assert_eq!(m.icon, None);
}

#[test]
fn same_key_update_of_a_vanished_item_fails_and_changes_nothing() {
    let mut reg = Reg::with_keys(&["*\\shell"]);
    let before = reg.clone();
    assert!(!reg.run(&update_plan(CTX, &"Gone".to_string(), &form("Gone", ""))));
    assert_eq!(reg, before);
}

#[test]
fn same_key_update_adds_a_missing_command_key() {
    let mut reg = Reg::with_keys(&["*\\shell", "*\\shell\\X"]);
    assert!(reg.run(&update_plan(CTX, &"X".to_string(), &form("X", ""))));
    assert_eq!(reg.read(CTX, "X").unwrap().command, "app.exe \"%1\"\0");
}
