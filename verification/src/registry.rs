//! The registry writes that change a menu item, a model of the registry to
//! state what they do, and the reading of an item from that model.
//!
//! A plan is a sequence of writes. Creating a key opens it, creating it and
//! the keys above it where they are missing; a failure stops the plan.
//! Each write to a value first opens the value's key for writing; a key
//! that cannot be opened stops the plan. A failed write of a value stops
//! the plan only where the write is checked; deleting a value and deleting
//! a key tree never stop it.
use vstd::prelude::*;
use crate::menu::{
    MenuItemForm,
    MenuItemFormView,
    MenuItemView,
    RawKeyView,
    spec_item_from_raw,
};
use crate::utf16::{reg_sz, reg_sz_data, utf16_decode, push_char};

verus! {

/// How many UTF-16 units the buffer holds into which a value is read.
pub const VALUE_BUFFER_UNITS: usize = 1024;

/// How many UTF-16 units the buffer holds into which a subkey's name is
/// read.
pub const KEY_NAME_BUFFER_UNITS: usize = 256;

/// The path of `child` under `parent`: the two joined by a backslash.
pub open spec fn spec_join(parent: Seq<char>, child: Seq<char>) -> Seq<char> {
    parent.push('\\') + child
}

/// The name of the subkey that holds an item's command.
pub open spec fn command_key_name() -> Seq<char> {
    "command"@
}

/// The name of the value that holds an item's icon.
pub open spec fn icon_value_name() -> Seq<char> {
    "Icon"@
}

/// The name of the value whose presence disables an item.
pub open spec fn legacy_disable_name() -> Seq<char> {
    "LegacyDisable"@
}

/// The name of a key's default value: the empty name.
pub open spec fn default_value_name() -> Seq<char> {
    Seq::empty()
}

/// One registry write.
#[derive(Clone, Debug, PartialEq, Eq)]
pub enum RegOp {
    /// Creates the key at `key_path`, and the keys above it, where missing.
    CreateKey { key_path: String },
    /// Sets the string value `name` of the key at `key_path` to `data`;
    /// `checked` says whether a failure of the write stops the plan.
    SetValue { key_path: String, name: String, data: Vec<u16>, checked: bool },
    /// Deletes the value `name` of the key at `key_path`.
    DeleteValue { key_path: String, name: String },
    /// Deletes the key at `key_path` with all its subkeys.
    DeleteTree { key_path: String },
}

pub enum RegOpView {
    CreateKey { key_path: Seq<char> },
    SetValue { key_path: Seq<char>, name: Seq<char>, data: Seq<u16>, checked: bool },
    DeleteValue { key_path: Seq<char>, name: Seq<char> },
    DeleteTree { key_path: Seq<char> },
}

impl View for RegOp {
    type V = RegOpView;

    open spec fn view(&self) -> RegOpView {
        match self {
            RegOp::CreateKey { key_path } => RegOpView::CreateKey { key_path: key_path@ },
            RegOp::SetValue { key_path, name, data, checked } => RegOpView::SetValue {
                key_path: key_path@,
                name: name@,
                data: data@,
                checked: *checked,
            },
            RegOp::DeleteValue { key_path, name } => RegOpView::DeleteValue {
                key_path: key_path@,
                name: name@,
            },
            RegOp::DeleteTree { key_path } => RegOpView::DeleteTree { key_path: key_path@ },
        }
    }
}

/// The views of the writes of a plan.
pub open spec fn plan_view(ops: Seq<RegOp>) -> Seq<RegOpView> {
    ops.map_values(|o: RegOp| o@)
}

/// The writes that store a new item's form under `ctx`: create the item's
/// key, set the display name as its default value and the icon where it is
/// non-empty, then create the `command` subkey and set the command as its
/// default value.
pub open spec fn spec_create_plan(ctx: Seq<char>, f: MenuItemFormView) -> Seq<RegOpView> {
    let kp = spec_join(ctx, f.key_name);
    let cp = spec_join(kp, command_key_name());
    let icon_ops = if f.icon.len() > 0 {
        seq![
            RegOpView::SetValue {
                key_path: kp,
                name: icon_value_name(),
                data: reg_sz(f.icon),
                checked: true,
            },
        ]
    } else {
        Seq::empty()
    };
    seq![
        RegOpView::CreateKey { key_path: kp },
        RegOpView::SetValue {
            key_path: kp,
            name: default_value_name(),
            data: reg_sz(f.display_name),
            checked: true,
        },
    ] + icon_ops + seq![
        RegOpView::CreateKey { key_path: cp },
        RegOpView::SetValue {
            key_path: cp,
            name: default_value_name(),
            data: reg_sz(f.command),
            checked: true,
        },
    ]
}

/// The writes that delete the item `key` under `ctx`: its whole key tree.
pub open spec fn spec_delete_plan(ctx: Seq<char>, key: Seq<char>) -> Seq<RegOpView> {
    seq![RegOpView::DeleteTree { key_path: spec_join(ctx, key) }]
}

/// The writes that store an edited form over the item `old_key`: where the
/// key name changed, the old item is deleted and the form stored as a new
/// item; else the display name is set on the item's existing key (a key
/// that has vanished stops the plan), the icon is set where it is non-empty
/// and deleted where it is empty, and the `command` subkey is created where
/// missing and the command set, so that an item listed without a command
/// can be edited.
pub open spec fn spec_update_plan(
    ctx: Seq<char>,
    old_key: Seq<char>,
    f: MenuItemFormView,
) -> Seq<RegOpView> {
    if old_key != f.key_name {
        spec_delete_plan(ctx, old_key) + spec_create_plan(ctx, f)
    } else {
        let kp = spec_join(ctx, f.key_name);
        let cp = spec_join(kp, command_key_name());
        let icon_op = if f.icon.len() > 0 {
            RegOpView::SetValue {
                key_path: kp,
                name: icon_value_name(),
                data: reg_sz(f.icon),
                checked: true,
            }
        } else {
            RegOpView::DeleteValue { key_path: kp, name: icon_value_name() }
        };
        seq![
            RegOpView::SetValue {
                key_path: kp,
                name: default_value_name(),
                data: reg_sz(f.display_name),
                checked: true,
            },
            icon_op,
            RegOpView::CreateKey { key_path: cp },
            RegOpView::SetValue {
                key_path: cp,
                name: default_value_name(),
                data: reg_sz(f.command),
                checked: true,
            },
        ]
    }
}

/// The writes that disable or enable the item `key` under `ctx`: set an
/// empty `LegacyDisable` value, unchecked, or delete it.
pub open spec fn spec_disable_plan(ctx: Seq<char>, key: Seq<char>, disabled: bool) -> Seq<
    RegOpView,
> {
    let kp = spec_join(ctx, key);
    if disabled {
        seq![
            RegOpView::SetValue {
                key_path: kp,
                name: legacy_disable_name(),
                data: reg_sz(Seq::empty()),
                checked: false,
            },
        ]
    } else {
        seq![RegOpView::DeleteValue { key_path: kp, name: legacy_disable_name() }]
    }
}

/// The path of `child` under `parent`.
pub fn join_path(parent: &str, child: &str) -> (r: String)
    ensures
        r@ == spec_join(parent@, child@),
{
    let mut s = String::from_str(parent);
    push_char(&mut s, '\\');
    s.append(child);
    s
}

/// The path of the `command` subkey of the key at `key_path`.
pub fn command_path(key_path: &str) -> (r: String)
    ensures
        r@ == spec_join(key_path@, command_key_name()),
{
    proof {
        reveal_strlit("command");
    }
    join_path(key_path, "command")
}

fn set_value(key_path: &String, name: &str, text: &str, checked: bool) -> (r: RegOp)
    ensures
        r@ == (RegOpView::SetValue {
            key_path: key_path@,
            name: name@,
            data: reg_sz(text@),
            checked,
        }),
{
    RegOp::SetValue {
        key_path: key_path.clone(),
        name: String::from_str(name),
        data: reg_sz_data(text),
        checked,
    }
}

/// The writes that store a new item's form under `context_path`.
pub fn create_plan(context_path: &str, form: &MenuItemForm) -> (r: Vec<RegOp>)
    ensures
        plan_view(r@) == spec_create_plan(context_path@, form@),
{
    let kp = join_path(context_path, form.key_name.as_str());
    let cp = command_path(kp.as_str());
    let mut ops: Vec<RegOp> = Vec::new();
    ops.push(RegOp::CreateKey { key_path: kp.clone() });
    ops.push(set_value(&kp, "", form.display_name.as_str(), true));
    if !form.icon.as_str().is_empty() {
        ops.push(set_value(&kp, "Icon", form.icon.as_str(), true));
    }
    ops.push(RegOp::CreateKey { key_path: cp.clone() });
    ops.push(set_value(&cp, "", form.command.as_str(), true));
    proof {
        reveal_strlit("");
        reveal_strlit("Icon");
        assert(""@ =~= default_value_name());
        let sp = spec_create_plan(context_path@, form@);
        assert(plan_view(ops@).len() == sp.len());
        assert forall|i: int| 0 <= i < sp.len() implies plan_view(ops@)[i] == sp[i] by {
            if form@.icon.len() > 0 {
            } else {
            }
        }
        assert(plan_view(ops@) =~= sp);
    }
    ops
}

/// The writes that delete the item `key_name` under `context_path`.
pub fn delete_plan(context_path: &str, key_name: &str) -> (r: Vec<RegOp>)
    ensures
        plan_view(r@) == spec_delete_plan(context_path@, key_name@),
{
    let kp = join_path(context_path, key_name);
    let mut ops: Vec<RegOp> = Vec::new();
    ops.push(RegOp::DeleteTree { key_path: kp });
    proof {
        assert(plan_view(ops@) =~= spec_delete_plan(context_path@, key_name@));
    }
    ops
}

/// The writes that store an edited form over the item `old_key_name`
/// under `context_path`.
pub fn update_plan(context_path: &str, old_key_name: &String, form: &MenuItemForm) -> (r: Vec<
    RegOp,
>)
    ensures
        plan_view(r@) == spec_update_plan(context_path@, old_key_name@, form@),
{
    if !old_key_name.eq(&form.key_name) {
        let mut ops = delete_plan(context_path, old_key_name.as_str());
        let mut rest = create_plan(context_path, form);
        let ghost a = ops@;
        let ghost b = rest@;
        ops.append(&mut rest);
        proof {
            assert(ops@ =~= a + b);
            assert(plan_view(ops@) =~= plan_view(a) + plan_view(b));
        }
        ops
    } else {
        let kp = join_path(context_path, form.key_name.as_str());
        let cp = command_path(kp.as_str());
        let mut ops: Vec<RegOp> = Vec::new();
        ops.push(set_value(&kp, "", form.display_name.as_str(), true));
        if !form.icon.as_str().is_empty() {
            ops.push(set_value(&kp, "Icon", form.icon.as_str(), true));
        } else {
            ops.push(RegOp::DeleteValue { key_path: kp.clone(), name: String::from_str("Icon") });
        }
        ops.push(RegOp::CreateKey { key_path: cp.clone() });
        ops.push(set_value(&cp, "", form.command.as_str(), true));
        proof {
            reveal_strlit("");
            reveal_strlit("Icon");
            assert(""@ =~= default_value_name());
            assert(old_key_name@ == form.key_name@);
            assert(plan_view(ops@) =~= spec_update_plan(context_path@, old_key_name@, form@));
        }
        ops
    }
}

/// The writes that disable (`disabled`) or enable the item `key_name`
/// under `context_path`.
pub fn disable_plan(context_path: &str, key_name: &str, disabled: bool) -> (r: Vec<RegOp>)
    ensures
        plan_view(r@) == spec_disable_plan(context_path@, key_name@, disabled),
{
    let kp = join_path(context_path, key_name);
    let mut ops: Vec<RegOp> = Vec::new();
    if disabled {
        ops.push(set_value(&kp, "LegacyDisable", "", false));
    } else {
        ops.push(RegOp::DeleteValue { key_path: kp, name: String::from_str("LegacyDisable") });
    }
    proof {
        reveal_strlit("");
        reveal_strlit("LegacyDisable");
        assert(plan_view(ops@) =~= spec_disable_plan(context_path@, key_name@, disabled));
    }
    ops
}

} // verus!
