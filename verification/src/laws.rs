//! What the plans do to the registry model: reading an item back after it
//! was stored, deleted, disabled or enabled, what a refresh lists
//! afterwards, and what stays untouched.
//!
//! Each law that speaks of the registry as it is takes a case folding
//! `fold` and holds where the keys it names have no other key that the
//! registry, comparing names under `fold`, takes for the same one.
use vstd::prelude::*;
use crate::menu::{MenuItemFormView, MenuItemView, RawKeyView, spec_item_from_raw, spec_items_from_raw};
use crate::model::{
    RegistryView,
    in_subtree,
    is_ancestor,
    is_listing,
    raw_key_in,
    run_plan,
    same_under,
    sole_key_under,
    spec_effect,
    spec_list_items,
    spec_read_entry,
    tree_sole_under,
};
use crate::registry::{
    RegOpView,
    VALUE_BUFFER_UNITS,
    command_key_name,
    default_value_name,
    icon_value_name,
    legacy_disable_name,
    spec_create_plan,
    spec_delete_plan,
    spec_disable_plan,
    spec_join,
    spec_update_plan,
};
use crate::utf16::{lemma_decode_reg_sz, reg_sz};

verus! {

/// Whether a write leaves the key at `p` alone: a key creation names
/// neither `p` nor a key below it, a value write names another key, a tree
/// deletion a tree that does not hold `p`.
pub open spec fn op_leaves(op: RegOpView, p: Seq<char>) -> bool {
    match op {
        RegOpView::CreateKey { key_path } => key_path != p && !is_ancestor(p, key_path),
        RegOpView::SetValue { key_path, .. } => key_path != p,
        RegOpView::DeleteValue { key_path, .. } => key_path != p,
        RegOpView::DeleteTree { key_path } => !in_subtree(key_path, p),
    }
}

/// Whether a write cannot bring the key at `p` into being.
pub open spec fn op_creates_not(op: RegOpView, p: Seq<char>) -> bool {
    match op {
        RegOpView::CreateKey { key_path } => key_path != p && !is_ancestor(p, key_path),
        _ => true,
    }
}

/// Whether the key at `p` exists, with the same values, in both registries.
pub open spec fn same_key(a: RegistryView, b: RegistryView, p: Seq<char>) -> bool {
    &&& a.contains_key(p) == b.contains_key(p)
    &&& a.contains_key(p) ==> a[p] == b[p]
}

/// Whether the item `key` under `ctx` read as disabled before a write.
pub open spec fn prior_disabled(reg: RegistryView, ctx: Seq<char>, key: Seq<char>) -> bool {
    match spec_read_entry(reg, ctx, key) {
        Some(m) => m.disabled,
        None => false,
    }
}

/// The icon that the item `key` under `ctx` read with before a write.
pub open spec fn prior_icon(reg: RegistryView, ctx: Seq<char>, key: Seq<char>) -> Option<Seq<char>> {
    match spec_read_entry(reg, ctx, key) {
        Some(m) => m.icon,
        None => None,
    }
}

/// The item that a read gives after a form was stored: the stored texts,
/// each followed by the NUL of its terminating zero unit; the icon where
/// the form has one, else `other_icon`; and the given disabled state.
pub open spec fn spec_stored_item(
    f: MenuItemFormView,
    disabled: bool,
    other_icon: Option<Seq<char>>,
) -> MenuItemView {
    MenuItemView {
        name: f.key_name,
        display_name: f.display_name.push('\0'),
        command: f.command.push('\0'),
        icon: if f.icon.len() > 0 {
            Some(f.icon.push('\0'))
        } else {
            other_icon
        },
        disabled,
    }
}

/// Whether each text of the form, stored as registry data, fits the read
/// buffer.
pub open spec fn form_fits(f: MenuItemFormView) -> bool {
    &&& reg_sz(f.display_name).len() <= VALUE_BUFFER_UNITS
    &&& reg_sz(f.command).len() <= VALUE_BUFFER_UNITS
    &&& reg_sz(f.icon).len() <= VALUE_BUFFER_UNITS
}

/// Whether the registry, comparing names under `fold`, takes no other key
/// for the item key of `key` under `ctx` or for its `command` subkey.
pub open spec fn item_keys_sole(
    reg: RegistryView,
    ctx: Seq<char>,
    key: Seq<char>,
    fold: spec_fn(char) -> char,
) -> bool {
    &&& sole_key_under(reg, spec_join(ctx, key), fold)
    &&& sole_key_under(reg, spec_join(spec_join(ctx, key), command_key_name()), fold)
}

proof fn lemma_run_concat(reg: RegistryView, a: Seq<RegOpView>, b: Seq<RegOpView>)
    ensures
        run_plan(reg, a + b) == (if run_plan(reg, a).1 {
            run_plan(run_plan(reg, a).0, b)
        } else {
            run_plan(reg, a)
        }),
    decreases a.len(),
{
    if a.len() == 0 {
        assert(a + b =~= b);
    } else {
        assert((a + b).drop_first() =~= a.drop_first() + b);
        assert((a + b)[0] == a[0]);
        lemma_run_concat(spec_effect(reg, a[0]), a.drop_first(), b);
    }
}

proof fn lemma_run_leaves(reg: RegistryView, ops: Seq<RegOpView>, p: Seq<char>)
    requires
        forall|i: int| 0 <= i < ops.len() ==> op_leaves(#[trigger] ops[i], p),
    ensures
        same_key(run_plan(reg, ops).0, reg, p),
    decreases ops.len(),
{
    if ops.len() > 0 {
        let next = spec_effect(reg, ops[0]);
        assert(op_leaves(ops[0], p));
        assert(same_key(next, reg, p));
        assert forall|i: int| 0 <= i < ops.drop_first().len() implies op_leaves(
            #[trigger] ops.drop_first()[i],
            p,
        ) by {
            assert(ops.drop_first()[i] == ops[i + 1]);
        }
        lemma_run_leaves(next, ops.drop_first(), p);
    }
}

proof fn lemma_run_no_new_keys(reg: RegistryView, ops: Seq<RegOpView>, p: Seq<char>)
    requires
        !reg.contains_key(p),
        forall|i: int| 0 <= i < ops.len() ==> op_creates_not(#[trigger] ops[i], p),
    ensures
        !run_plan(reg, ops).0.contains_key(p),
    decreases ops.len(),
{
    if ops.len() > 0 {
        assert(op_creates_not(ops[0], p));
        assert forall|i: int| 0 <= i < ops.drop_first().len() implies op_creates_not(
            #[trigger] ops.drop_first()[i],
            p,
        ) by {
            assert(ops.drop_first()[i] == ops[i + 1]);
        }
        lemma_run_no_new_keys(spec_effect(reg, ops[0]), ops.drop_first(), p);
    }
}

proof fn lemma_value_names_differ()
    ensures
        default_value_name() != icon_value_name(),
        default_value_name() != legacy_disable_name(),
        icon_value_name() != legacy_disable_name(),
{
    reveal_strlit("Icon");
    reveal_strlit("LegacyDisable");
    assert(icon_value_name().len() == 4);
    assert(legacy_disable_name().len() == 13);
}

proof fn lemma_command_path_below(kp: Seq<char>)
    ensures
        in_subtree(kp, spec_join(kp, command_key_name())),
        spec_join(kp, command_key_name()) != kp,
        !is_ancestor(spec_join(kp, command_key_name()), kp),
{
    let cp = spec_join(kp, command_key_name());
    reveal_strlit("command");
    assert(cp.len() > kp.len());
    assert(kp.push('\\') =~= cp.subrange(0, kp.len() + 1int));
}

/// A key above the `command` subkey of an item is the item's key or lies
/// above it.
proof fn lemma_above_command_path(kp: Seq<char>, p: Seq<char>)
    requires
        is_ancestor(p, spec_join(kp, command_key_name())),
    ensures
        p == kp || is_ancestor(p, kp),
{
    let cp = spec_join(kp, command_key_name());
    reveal_strlit("command");
    let l = p.len() as int;
    assert(p.push('\\') =~= cp.subrange(0, l + 1));
    assert(p.push('\\')[l] == '\\');
    assert(cp.subrange(0, l + 1)[l] == cp[l]);
    assert(cp[l] == '\\');
    assert forall|i: int| 0 <= i < l implies p[i] == cp[i] by {
        assert(p.push('\\')[i] == p[i]);
        assert(cp.subrange(0, l + 1)[i] == cp[i]);
    }
    assert forall|i: int| 0 <= i < kp.len() implies cp[i] == kp[i] by {
        assert(cp[i] == kp.push('\\')[i]);
    }
    if l < kp.len() {
        assert(p.push('\\') =~= kp.subrange(0, l + 1));
    } else if l == kp.len() {
        assert(p =~= kp);
    } else {
        assert(cp[l] == command_key_name()[l - kp.len() - 1]);
        assert(false);
    }
}

/// Creating the item key: afterwards it exists, with its values as before
/// or none where it was missing, and the `command` subkey is as before.
proof fn lemma_create_item_key(reg: RegistryView, kp: Seq<char>)
    ensures
        ({
            let cp = spec_join(kp, command_key_name());
            let r1 = spec_effect(reg, RegOpView::CreateKey { key_path: kp });
            &&& r1.contains_key(kp)
            &&& r1[kp] == (if reg.contains_key(kp) {
                reg[kp]
            } else {
                Map::<Seq<char>, Seq<u16>>::empty()
            })
            &&& same_key(r1, reg, cp)
        }),
{
    lemma_command_path_below(kp);
}

/// Creating the `command` subkey of an existing item key: afterwards it
/// exists, with its values as before or none where it was missing, and the
/// item key is as before.
proof fn lemma_create_command_key(reg: RegistryView, kp: Seq<char>)
    requires
        reg.contains_key(kp),
    ensures
        ({
            let cp = spec_join(kp, command_key_name());
            let r1 = spec_effect(reg, RegOpView::CreateKey { key_path: cp });
            &&& r1.contains_key(cp)
            &&& r1[cp] == (if reg.contains_key(cp) {
                reg[cp]
            } else {
                Map::<Seq<char>, Seq<u16>>::empty()
            })
            &&& same_key(r1, reg, kp)
        }),
{
    lemma_command_path_below(kp);
}

/// Storing a new item's form runs to its end, and reading the item back
/// gives the form's texts, each followed by a NUL; the icon where the form
/// has one, else the icon the item had; and the disabled state it had,
/// which is enabled where the item's key was missing. The item's key and
/// its `command` subkey are created where missing.
pub proof fn law_create_read_back(
    reg: RegistryView,
    ctx: Seq<char>,
    f: MenuItemFormView,
    fold: spec_fn(char) -> char,
)
    requires
        form_fits(f),
        item_keys_sole(reg, ctx, f.key_name, fold),
    ensures
        run_plan(reg, spec_create_plan(ctx, f)).1,
        spec_read_entry(run_plan(reg, spec_create_plan(ctx, f)).0, ctx, f.key_name) == Some(
            spec_stored_item(
                f,
                prior_disabled(reg, ctx, f.key_name),
                prior_icon(reg, ctx, f.key_name),
            ),
        ),
{
    let kp = spec_join(ctx, f.key_name);
    let cp = spec_join(kp, command_key_name());
    let ops = spec_create_plan(ctx, f);
    lemma_value_names_differ();
    lemma_command_path_below(kp);
    lemma_decode_reg_sz(f.display_name);
    lemma_decode_reg_sz(f.command);
    lemma_decode_reg_sz(f.icon);
    lemma_create_item_key(reg, kp);
    let r1 = spec_effect(reg, ops[0]);
    let rest1 = ops.drop_first();
    let r2 = spec_effect(r1, rest1[0]);
    assert(r2 == r1.insert(kp, r1[kp].insert(default_value_name(), reg_sz(f.display_name))));
    let rest2 = rest1.drop_first();
    assert(run_plan(reg, ops) == run_plan(r1, rest1));
    assert(run_plan(r1, rest1) == run_plan(r2, rest2));
    let r3 = if f.icon.len() > 0 {
        spec_effect(r2, rest2[0])
    } else {
        r2
    };
    let rest3 = if f.icon.len() > 0 {
        rest2.drop_first()
    } else {
        rest2
    };
    if f.icon.len() > 0 {
        assert(r3 == r2.insert(kp, r2[kp].insert(icon_value_name(), reg_sz(f.icon))));
        assert(run_plan(r2, rest2) == run_plan(r3, rest3));
    }
    assert(r3.contains_key(kp));
    assert(same_key(r3, reg, cp));
    lemma_create_command_key(r3, kp);
    let r4 = spec_effect(r3, rest3[0]);
    let rest4 = rest3.drop_first();
    assert(run_plan(r3, rest3) == run_plan(r4, rest4));
    let r5 = spec_effect(r4, rest4[0]);
    assert(r5 == r4.insert(cp, r4[cp].insert(default_value_name(), reg_sz(f.command))));
    assert(rest4.drop_first().len() == 0);
    assert(run_plan(r4, rest4) == run_plan(r5, rest4.drop_first()));
    assert(r5[kp] == r3[kp]);
    assert(r5[kp].contains_key(legacy_disable_name()) == r1[kp].contains_key(
        legacy_disable_name(),
    ));
    if f.icon.len() == 0 {
        assert(r5[kp].contains_key(icon_value_name()) == r1[kp].contains_key(icon_value_name()));
        assert(r5[kp][icon_value_name()] == r1[kp][icon_value_name()]);
    }
    assert(raw_key_in(r5, ctx, f.key_name).opened);
}

/// Storing an edited form over an item under the same key, where the
/// item's key exists, runs to its end, and reading the item back gives the
/// form's texts, each followed by a NUL; no icon where the form's icon is
/// empty; and the disabled state it had. The `command` subkey is created
/// where missing. Where the item's key has vanished the plan stops at once
/// and changes nothing.
pub proof fn law_update_read_back(
    reg: RegistryView,
    ctx: Seq<char>,
    f: MenuItemFormView,
    fold: spec_fn(char) -> char,
)
    requires
        form_fits(f),
        item_keys_sole(reg, ctx, f.key_name, fold),
    ensures
        reg.contains_key(spec_join(ctx, f.key_name)) ==> {
            &&& run_plan(reg, spec_update_plan(ctx, f.key_name, f)).1
            &&& spec_read_entry(run_plan(reg, spec_update_plan(ctx, f.key_name, f)).0, ctx, f.key_name)
                == Some(spec_stored_item(f, prior_disabled(reg, ctx, f.key_name), None))
        },
        !reg.contains_key(spec_join(ctx, f.key_name)) ==> run_plan(
            reg,
            spec_update_plan(ctx, f.key_name, f),
        ) == (reg, false),
{
    let kp = spec_join(ctx, f.key_name);
    let cp = spec_join(kp, command_key_name());
    let ops = spec_update_plan(ctx, f.key_name, f);
    lemma_value_names_differ();
    lemma_command_path_below(kp);
    lemma_decode_reg_sz(f.display_name);
    lemma_decode_reg_sz(f.command);
    lemma_decode_reg_sz(f.icon);
    let r2 = spec_effect(reg, ops[0]);
    if !reg.contains_key(kp) {
        assert(r2 == reg);
    } else {
        assert(r2 == reg.insert(kp, reg[kp].insert(default_value_name(), reg_sz(f.display_name))));
        let rest2 = ops.drop_first();
        let r3 = spec_effect(r2, rest2[0]);
        if f.icon.len() > 0 {
            assert(r3 == r2.insert(kp, r2[kp].insert(icon_value_name(), reg_sz(f.icon))));
        } else {
            assert(r3 == r2.insert(kp, r2[kp].remove(icon_value_name())));
        }
        let rest3 = rest2.drop_first();
        assert(run_plan(reg, ops) == run_plan(r2, rest2));
        assert(run_plan(r2, rest2) == run_plan(r3, rest3));
        assert(r3.contains_key(kp));
        assert(same_key(r3, reg, cp));
        lemma_create_command_key(r3, kp);
        let r4 = spec_effect(r3, rest3[0]);
        let rest4 = rest3.drop_first();
        assert(run_plan(r3, rest3) == run_plan(r4, rest4));
        let r5 = spec_effect(r4, rest4[0]);
        assert(r5 == r4.insert(cp, r4[cp].insert(default_value_name(), reg_sz(f.command))));
        assert(rest4.drop_first().len() == 0);
        assert(run_plan(r4, rest4) == run_plan(r5, rest4.drop_first()));
        assert(r5[kp] == r3[kp]);
        assert(r5[kp].contains_key(legacy_disable_name()) == reg[kp].contains_key(
            legacy_disable_name(),
        ));
        assert(r5[kp].contains_key(icon_value_name()) == (f.icon.len() > 0));
        assert(raw_key_in(r5, ctx, f.key_name).opened);
    }
}

/// Deleting an item runs to its end, and afterwards the item reads as
/// absent. Every key outside the item's key tree stays as it was where the
/// registry, comparing names under `fold`, holds no other key in that tree.
pub proof fn law_delete_removes(
    reg: RegistryView,
    ctx: Seq<char>,
    key: Seq<char>,
    fold: spec_fn(char) -> char,
    p: Seq<char>,
)
    ensures
        run_plan(reg, spec_delete_plan(ctx, key)).1,
        spec_read_entry(run_plan(reg, spec_delete_plan(ctx, key)).0, ctx, key) is None,
        tree_sole_under(reg, spec_join(ctx, key), fold) && !in_subtree(spec_join(ctx, key), p)
            ==> same_key(run_plan(reg, spec_delete_plan(ctx, key)).0, reg, p),
{
    let ops = spec_delete_plan(ctx, key);
    let kp = spec_join(ctx, key);
    assert(ops.drop_first().len() == 0);
    assert(run_plan(reg, ops) == run_plan(spec_effect(reg, ops[0]), ops.drop_first()));
    assert(!spec_effect(reg, ops[0]).contains_key(kp));
}

/// Disabling or enabling an item whose key exists runs to its end, and
/// reading the item back gives the state that was written and every other
/// field as before. Where the key does not exist the plan stops at once and
/// changes nothing.
pub proof fn law_set_disabled_read_back(
    reg: RegistryView,
    ctx: Seq<char>,
    key: Seq<char>,
    disabled: bool,
    fold: spec_fn(char) -> char,
)
    requires
        item_keys_sole(reg, ctx, key, fold),
    ensures
        ({
            let kp = spec_join(ctx, key);
            let after = run_plan(reg, spec_disable_plan(ctx, key, disabled));
            let before = spec_read_entry(reg, ctx, key).unwrap();
            &&& reg.contains_key(kp) ==> {
                &&& after.1
                &&& spec_read_entry(after.0, ctx, key) == Some(
                    MenuItemView { disabled, ..before },
                )
            }
            &&& !reg.contains_key(kp) ==> after == (reg, false)
        }),
{
    let kp = spec_join(ctx, key);
    let cp = spec_join(kp, command_key_name());
    let ops = spec_disable_plan(ctx, key, disabled);
    lemma_value_names_differ();
    lemma_command_path_below(kp);
    assert(ops.drop_first().len() == 0);
    let r1 = spec_effect(reg, ops[0]);
    if reg.contains_key(kp) {
        assert(run_plan(reg, ops) == run_plan(r1, ops.drop_first()));
        assert(r1.contains_key(cp) == reg.contains_key(cp));
        assert(reg.contains_key(cp) ==> r1[cp] == reg[cp]);
        assert(r1[kp].contains_key(legacy_disable_name()) == disabled);
        assert(r1[kp].contains_key(default_value_name()) == reg[kp].contains_key(
            default_value_name(),
        ));
        assert(r1[kp].contains_key(icon_value_name()) == reg[kp].contains_key(icon_value_name()));
    } else {
        assert(r1 == reg);
    }
}

/// Toggling an existing item twice, each time to the opposite of the state
/// it reads as, gives back the item as it read before.
pub proof fn law_toggle_twice_restores(
    reg: RegistryView,
    ctx: Seq<char>,
    key: Seq<char>,
    fold: spec_fn(char) -> char,
)
    requires
        reg.contains_key(spec_join(ctx, key)),
        item_keys_sole(reg, ctx, key, fold),
    ensures
        ({
            let m0 = spec_read_entry(reg, ctx, key).unwrap();
            let r1 = run_plan(reg, spec_disable_plan(ctx, key, !m0.disabled)).0;
            let m1 = spec_read_entry(r1, ctx, key).unwrap();
            let r2 = run_plan(r1, spec_disable_plan(ctx, key, !m1.disabled)).0;
            spec_read_entry(r2, ctx, key) == Some(m0)
        }),
{
    let kp = spec_join(ctx, key);
    let cp = spec_join(kp, command_key_name());
    lemma_command_path_below(kp);
    let m0 = spec_read_entry(reg, ctx, key).unwrap();
    law_set_disabled_read_back(reg, ctx, key, !m0.disabled, fold);
    let ops = spec_disable_plan(ctx, key, !m0.disabled);
    let r1 = run_plan(reg, ops).0;
    assert(ops.drop_first().len() == 0);
    assert(run_plan(reg, ops) == run_plan(spec_effect(reg, ops[0]), ops.drop_first()));
    assert(r1.dom() == reg.dom());
    assert(item_keys_sole(r1, ctx, key, fold));
    assert(r1.contains_key(kp));
    let m1 = spec_read_entry(r1, ctx, key).unwrap();
    law_set_disabled_read_back(r1, ctx, key, !m1.disabled, fold);
}

/// Storing an edited form under a new key name deletes the old item,
/// which afterwards reads as absent, and stores the form as a new item:
/// the plan runs to its end and reading the new item back gives what
/// storing it as a new item gives. This holds where the new key and its
/// `command` subkey lie outside the old item's key tree and, under `fold`,
/// the registry holds no other key in the old tree, takes the new keys for
/// no other key once the old tree is gone, and does not take the new item
/// key for the old one.
pub proof fn law_rename_read_back(
    reg: RegistryView,
    ctx: Seq<char>,
    old_key: Seq<char>,
    f: MenuItemFormView,
    fold: spec_fn(char) -> char,
)
    requires
        old_key != f.key_name,
        form_fits(f),
        !in_subtree(spec_join(ctx, old_key), spec_join(ctx, f.key_name)),
        !in_subtree(
            spec_join(ctx, old_key),
            spec_join(spec_join(ctx, f.key_name), command_key_name()),
        ),
        tree_sole_under(reg, spec_join(ctx, old_key), fold),
        item_keys_sole(run_plan(reg, spec_delete_plan(ctx, old_key)).0, ctx, f.key_name, fold),
        !same_under(fold, spec_join(ctx, old_key), spec_join(ctx, f.key_name)),
    ensures
        spec_read_entry(run_plan(reg, spec_update_plan(ctx, old_key, f)).0, ctx, old_key) is None,
        run_plan(reg, spec_update_plan(ctx, old_key, f)).1,
        spec_read_entry(run_plan(reg, spec_update_plan(ctx, old_key, f)).0, ctx, f.key_name)
            == Some(
            spec_stored_item(
                f,
                prior_disabled(reg, ctx, f.key_name),
                prior_icon(reg, ctx, f.key_name),
            ),
        ),
{
    let okp = spec_join(ctx, old_key);
    let nkp = spec_join(ctx, f.key_name);
    let ncp = spec_join(nkp, command_key_name());
    let del = spec_delete_plan(ctx, old_key);
    let cre = spec_create_plan(ctx, f);
    assert(spec_update_plan(ctx, old_key, f) == del + cre);
    lemma_run_concat(reg, del, cre);
    law_delete_removes(reg, ctx, old_key, fold, nkp);
    law_delete_removes(reg, ctx, old_key, fold, ncp);
    let r1 = run_plan(reg, del).0;
    assert(del.drop_first().len() == 0);
    assert(run_plan(reg, del) == run_plan(spec_effect(reg, del[0]), del.drop_first()));
    assert(!r1.contains_key(okp));
    assert(forall|i: int| 0 <= i < cre.len() ==> op_creates_not(#[trigger] cre[i], okp));
    lemma_run_no_new_keys(r1, cre, okp);
    law_create_read_back(r1, ctx, f, fold);
    assert(same_key(r1, reg, nkp));
    assert(same_key(r1, reg, ncp));
    if reg.contains_key(nkp) {
        assert(raw_key_in(r1, ctx, f.key_name) == raw_key_in(reg, ctx, f.key_name));
    }
    assert(spec_read_entry(r1, ctx, f.key_name) == spec_read_entry(reg, ctx, f.key_name));
}

proof fn lemma_store_leaves(ctx: Seq<char>, f: MenuItemFormView, p: Seq<char>)
    requires
        !in_subtree(spec_join(ctx, f.key_name), p),
        !is_ancestor(p, spec_join(ctx, f.key_name)),
    ensures
        forall|i: int|
            0 <= i < spec_create_plan(ctx, f).len() ==> op_leaves(
                #[trigger] spec_create_plan(ctx, f)[i],
                p,
            ),
        forall|i: int|
            0 <= i < spec_update_plan(ctx, f.key_name, f).len() ==> op_leaves(
                #[trigger] spec_update_plan(ctx, f.key_name, f)[i],
                p,
            ),
{
    let kp = spec_join(ctx, f.key_name);
    let cp = spec_join(kp, command_key_name());
    lemma_command_path_below(kp);
    if is_ancestor(p, cp) {
        lemma_above_command_path(kp, p);
    }
    assert(cp != p);
    assert(kp != p);
    assert(!is_ancestor(p, cp));
}

/// Each plan leaves every key outside the key trees of the items it
/// names, and not above the key of an item it stores, exactly as it was,
/// where the registry, comparing names under `fold`, takes no other key for
/// those it names.
pub proof fn law_plans_touch_only_their_items(
    reg: RegistryView,
    ctx: Seq<char>,
    key: Seq<char>,
    f: MenuItemFormView,
    disabled: bool,
    fold: spec_fn(char) -> char,
    p: Seq<char>,
)
    ensures
        item_keys_sole(reg, ctx, f.key_name, fold) && !in_subtree(spec_join(ctx, f.key_name), p)
            && !is_ancestor(p, spec_join(ctx, f.key_name)) ==> same_key(
            run_plan(reg, spec_create_plan(ctx, f)).0,
            reg,
            p,
        ),
        tree_sole_under(reg, spec_join(ctx, key), fold) && !in_subtree(spec_join(ctx, key), p)
            ==> same_key(run_plan(reg, spec_delete_plan(ctx, key)).0, reg, p),
        item_keys_sole(reg, ctx, key, fold) && !in_subtree(spec_join(ctx, key), p) ==> same_key(
            run_plan(reg, spec_disable_plan(ctx, key, disabled)).0,
            reg,
            p,
        ),
        tree_sole_under(reg, spec_join(ctx, key), fold) && item_keys_sole(
            reg,
            ctx,
            f.key_name,
            fold,
        ) && !in_subtree(spec_join(ctx, key), p) && !in_subtree(spec_join(ctx, f.key_name), p)
            && !is_ancestor(p, spec_join(ctx, f.key_name)) ==> same_key(
            run_plan(reg, spec_update_plan(ctx, key, f)).0,
            reg,
            p,
        ),
{
    let kp = spec_join(ctx, key);
    let nkp = spec_join(ctx, f.key_name);
    if !in_subtree(nkp, p) && !is_ancestor(p, nkp) {
        lemma_store_leaves(ctx, f, p);
        lemma_run_leaves(reg, spec_create_plan(ctx, f), p);
    }
    if !in_subtree(kp, p) {
        law_delete_removes(reg, ctx, key, fold, p);
        let dis = spec_disable_plan(ctx, key, disabled);
        assert(kp != p);
        assert(forall|i: int| 0 <= i < dis.len() ==> op_leaves(#[trigger] dis[i], p));
        lemma_run_leaves(reg, dis, p);
    }
    if !in_subtree(kp, p) && !in_subtree(nkp, p) && !is_ancestor(p, nkp) {
        let up = spec_update_plan(ctx, key, f);
        lemma_store_leaves(ctx, f, p);
        if key != f.key_name {
            let del = spec_delete_plan(ctx, key);
            let cre = spec_create_plan(ctx, f);
            assert(up == del + cre);
            assert forall|i: int| 0 <= i < up.len() implies op_leaves(#[trigger] up[i], p) by {
                if i >= 1 {
                    assert(up[i] == cre[i - 1]);
                }
            }
        }
        lemma_run_leaves(reg, up, p);
    }
}

proof fn lemma_items_from_raw_member(rs: Seq<RawKeyView>, j: int)
    requires
        0 <= j < rs.len(),
        rs[j].opened,
    ensures
        spec_items_from_raw(rs).contains(spec_item_from_raw(rs[j]).unwrap()),
    decreases rs.len(),
{
    let items = spec_items_from_raw(rs);
    let prev = spec_items_from_raw(rs.drop_last());
    if j == rs.len() - 1 {
        assert(items == prev.push(spec_item_from_raw(rs[j]).unwrap()));
        assert(items[prev.len() as int] == spec_item_from_raw(rs[j]).unwrap());
    } else {
        lemma_items_from_raw_member(rs.drop_last(), j);
        let k = choose|k: int| 0 <= k < prev.len() && prev[k] == spec_item_from_raw(rs[j]).unwrap();
        assert(rs.drop_last()[j] == rs[j]);
        assert(items[k] == prev[k]);
    }
}

proof fn lemma_items_from_raw_source(rs: Seq<RawKeyView>, i: int)
    requires
        0 <= i < spec_items_from_raw(rs).len(),
    ensures
        exists|j: int|
            0 <= j < rs.len() && #[trigger] spec_item_from_raw(rs[j]) == Some(
                spec_items_from_raw(rs)[i],
            ),
    decreases rs.len(),
{
    let items = spec_items_from_raw(rs);
    let prev = spec_items_from_raw(rs.drop_last());
    if i < prev.len() {
        lemma_items_from_raw_source(rs.drop_last(), i);
        let j = choose|j: int|
            0 <= j < rs.drop_last().len() && #[trigger] spec_item_from_raw(rs.drop_last()[j])
                == Some(prev[i]);
        assert(rs[j] == rs.drop_last()[j]);
        assert(items[i] == prev[i]);
        assert(spec_item_from_raw(rs[j]) == Some(items[i]));
    } else {
        assert(spec_item_from_raw(rs[rs.len() - 1]) == Some(items[i]));
    }
}

/// After a form is stored as a new item whose key name holds no backslash,
/// a refresh of the context lists that item as it reads back.
pub proof fn law_create_then_listed(
    reg: RegistryView,
    ctx: Seq<char>,
    f: MenuItemFormView,
    fold: spec_fn(char) -> char,
    names: Seq<Seq<char>>,
)
    requires
        form_fits(f),
        item_keys_sole(reg, ctx, f.key_name, fold),
        !f.key_name.contains('\\'),
        is_listing(run_plan(reg, spec_create_plan(ctx, f)).0, ctx, names),
    ensures
        spec_list_items(run_plan(reg, spec_create_plan(ctx, f)).0, ctx, names).contains(
            spec_stored_item(
                f,
                prior_disabled(reg, ctx, f.key_name),
                prior_icon(reg, ctx, f.key_name),
            ),
        ),
{
    let after = run_plan(reg, spec_create_plan(ctx, f)).0;
    law_create_read_back(reg, ctx, f, fold);
    let kp = spec_join(ctx, f.key_name);
    assert(after.contains_key(kp));
    assert(names.contains(f.key_name));
    let j = choose|j: int| 0 <= j < names.len() && names[j] == f.key_name;
    let rs = names.map_values(|n: Seq<char>| raw_key_in(after, ctx, n));
    assert(rs[j] == raw_key_in(after, ctx, f.key_name));
    lemma_items_from_raw_member(rs, j);
}

/// After an item is deleted, a refresh of the context lists no item of
/// that name.
pub proof fn law_delete_then_unlisted(
    reg: RegistryView,
    ctx: Seq<char>,
    key: Seq<char>,
    names: Seq<Seq<char>>,
)
    requires
        is_listing(run_plan(reg, spec_delete_plan(ctx, key)).0, ctx, names),
    ensures
        forall|i: int|
            0 <= i < spec_list_items(run_plan(reg, spec_delete_plan(ctx, key)).0, ctx, names).len()
                ==> #[trigger] spec_list_items(
                run_plan(reg, spec_delete_plan(ctx, key)).0,
                ctx,
                names,
            )[i].name != key,
{
    let after = run_plan(reg, spec_delete_plan(ctx, key)).0;
    let ops = spec_delete_plan(ctx, key);
    assert(ops.drop_first().len() == 0);
    assert(run_plan(reg, ops) == run_plan(spec_effect(reg, ops[0]), ops.drop_first()));
    assert(!after.contains_key(spec_join(ctx, key)));
    assert(!names.contains(key));
    let rs = names.map_values(|n: Seq<char>| raw_key_in(after, ctx, n));
    let items = spec_list_items(after, ctx, names);
    assert forall|i: int| 0 <= i < items.len() implies #[trigger] items[i].name != key by {
        lemma_items_from_raw_source(rs, i);
        let j = choose|j: int|
            0 <= j < rs.len() && #[trigger] spec_item_from_raw(rs[j]) == Some(items[i]);
        assert(rs[j].name == names[j]);
        if names[j] == key {
            assert(names.contains(key));
        }
    }
}

/// Two refreshes of a context in an unchanged registry list the same
/// items, whatever order each enumeration gives the subkeys in.
pub proof fn law_refresh_repeatable(
    reg: RegistryView,
    ctx: Seq<char>,
    names1: Seq<Seq<char>>,
    names2: Seq<Seq<char>>,
    m: MenuItemView,
)
    requires
        is_listing(reg, ctx, names1),
        is_listing(reg, ctx, names2),
    ensures
        spec_list_items(reg, ctx, names1).contains(m) <==> spec_list_items(reg, ctx, names2).contains(
            m,
        ),
{
    if spec_list_items(reg, ctx, names1).contains(m) {
        lemma_listed_in_other(reg, ctx, names1, names2, m);
    }
    if spec_list_items(reg, ctx, names2).contains(m) {
        lemma_listed_in_other(reg, ctx, names2, names1, m);
    }
}

proof fn lemma_listed_in_other(
    reg: RegistryView,
    ctx: Seq<char>,
    names1: Seq<Seq<char>>,
    names2: Seq<Seq<char>>,
    m: MenuItemView,
)
    requires
        is_listing(reg, ctx, names1),
        is_listing(reg, ctx, names2),
        spec_list_items(reg, ctx, names1).contains(m),
    ensures
        spec_list_items(reg, ctx, names2).contains(m),
{
    let rs1 = names1.map_values(|n: Seq<char>| raw_key_in(reg, ctx, n));
    let rs2 = names2.map_values(|n: Seq<char>| raw_key_in(reg, ctx, n));
    let items1 = spec_list_items(reg, ctx, names1);
    let i = choose|i: int| 0 <= i < items1.len() && items1[i] == m;
    lemma_items_from_raw_source(rs1, i);
    let j = choose|j: int| 0 <= j < rs1.len() && #[trigger] spec_item_from_raw(rs1[j]) == Some(m);
    let n = names1[j];
    assert(names1.contains(n));
    assert(names2.contains(n));
    let k = choose|k: int| 0 <= k < names2.len() && names2[k] == n;
    assert(rs2[k] == rs1[j]);
    lemma_items_from_raw_member(rs2, k);
}

} // verus!
