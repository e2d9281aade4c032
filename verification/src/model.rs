//! A model of the part of the registry that the manager touches, what each
//! write does to it, when a plan goes on after a write, and what reading an
//! item from it gives.
//!
//! In the model a registry maps the path of each key that exists to the
//! values of that key, each value being its data as UTF-16 units. A key can
//! be opened exactly when it exists, creating a key succeeds, and writes to
//! an opened key succeed.
//!
//! Key paths compare exactly as character sequences in the model, while
//! the registry compares them without regard to letter case. The laws are
//! therefore stated where the keys that a plan names have no other key in
//! the registry that the registry takes for the same one: `sole_key_under`
//! and `tree_sole_under` say so for a case folding `fold` that the laws
//! take as a parameter, to be read as the registry's own.
use vstd::prelude::*;
use crate::menu::{MenuItemView, RawKeyView, spec_item_from_raw, spec_items_from_raw};
use crate::registry::{
    RegOp,
    RegOpView,
    VALUE_BUFFER_UNITS,
    command_key_name,
    default_value_name,
    icon_value_name,
    legacy_disable_name,
    spec_join,
};
use crate::utf16::utf16_decode;

verus! {

/// The values of one key: value name to data.
pub type ValuesView = Map<Seq<char>, Seq<u16>>;

/// A registry: the path of each existing key to its values.
pub type RegistryView = Map<Seq<char>, Map<Seq<char>, Seq<u16>>>;

/// What came of one write.
#[derive(Clone, Copy, Debug, PartialEq, Eq, Structural)]
pub enum OpOutcome {
    /// The write was done.
    Done,
    /// The key that the write names could not be opened.
    OpenFailed,
    /// The key was opened, or none needed opening, and the write failed.
    WriteFailed,
}

/// Whether the key at `p` is the key at `root` or lies below it.
pub open spec fn in_subtree(root: Seq<char>, p: Seq<char>) -> bool {
    p == root || is_ancestor(root, p)
}

/// Whether the key at `p` lies above the key at `q`.
pub open spec fn is_ancestor(p: Seq<char>, q: Seq<char>) -> bool {
    p.push('\\').is_prefix_of(q)
}

/// Whether two paths name the same key where names compare under `fold`.
pub open spec fn same_under(fold: spec_fn(char) -> char, p: Seq<char>, q: Seq<char>) -> bool {
    p.map_values(fold) == q.map_values(fold)
}

/// Whether no key of `reg` other than `p` names the same key as `p` under
/// `fold`.
pub open spec fn sole_key_under(reg: RegistryView, p: Seq<char>, fold: spec_fn(char) -> char) -> bool {
    forall|q: Seq<char>| #[trigger] reg.contains_key(q) && same_under(fold, q, p) ==> q == p
}

/// Whether every key of `reg` that lies, under `fold`, in the tree of the
/// key at `root` lies in that tree exactly.
pub open spec fn tree_sole_under(
    reg: RegistryView,
    root: Seq<char>,
    fold: spec_fn(char) -> char,
) -> bool {
    forall|q: Seq<char>|
        #[trigger] reg.contains_key(q) && (same_under(fold, q, root) || (q.len() > root.len()
            && q[root.len() as int] == '\\' && same_under(fold, q.take(root.len() as int), root)))
            ==> in_subtree(root, q)
}

/// Whether a plan goes on after a write with the given outcome: a failed
/// key creation stops it, a key that cannot be opened stops it, a failed write stops it where the write is a
/// checked value write, and deleting a key tree never stops it.
pub open spec fn spec_continues(op: RegOpView, outcome: OpOutcome) -> bool {
    match op {
        RegOpView::CreateKey { .. } => outcome == OpOutcome::Done,
        RegOpView::DeleteTree { .. } => true,
        RegOpView::SetValue { checked, .. } => match outcome {
            OpOutcome::Done => true,
            OpOutcome::OpenFailed => false,
            OpOutcome::WriteFailed => !checked,
        },
        RegOpView::DeleteValue { .. } => match outcome {
            OpOutcome::OpenFailed => false,
            _ => true,
        },
    }
}

/// Whether the plan goes on after `op` had the given outcome.
pub fn continue_after(op: &RegOp, outcome: OpOutcome) -> (r: bool)
    ensures
        r == spec_continues(op@, outcome),
{
    match op {
        RegOp::CreateKey { .. } => match outcome {
            OpOutcome::Done => true,
            _ => false,
        },
        RegOp::DeleteTree { .. } => true,
        RegOp::SetValue { checked, .. } => match outcome {
            OpOutcome::Done => true,
            OpOutcome::OpenFailed => false,
            OpOutcome::WriteFailed => !*checked,
        },
        RegOp::DeleteValue { .. } => match outcome {
            OpOutcome::OpenFailed => false,
            _ => true,
        },
    }
}

/// The outcome of a write on the model: creating a key succeeds; a missing
/// key cannot be opened;
/// deleting a missing value, or the tree of a missing key, fails.
pub open spec fn spec_outcome(reg: RegistryView, op: RegOpView) -> OpOutcome {
    match op {
        RegOpView::CreateKey { .. } => OpOutcome::Done,
        RegOpView::SetValue { key_path, .. } => if reg.contains_key(key_path) {
            OpOutcome::Done
        } else {
            OpOutcome::OpenFailed
        },
        RegOpView::DeleteValue { key_path, name } => if !reg.contains_key(key_path) {
            OpOutcome::OpenFailed
        } else if !reg[key_path].contains_key(name) {
            OpOutcome::WriteFailed
        } else {
            OpOutcome::Done
        },
        RegOpView::DeleteTree { key_path } => if reg.contains_key(key_path) {
            OpOutcome::Done
        } else {
            OpOutcome::WriteFailed
        },
    }
}

/// The registry after a write. Creating a key adds it, and each key above
/// it, with no values where it is missing, and leaves existing keys as they
/// are.
pub open spec fn spec_effect(reg: RegistryView, op: RegOpView) -> RegistryView {
    match op {
        RegOpView::CreateKey { key_path } => Map::new(
            |p: Seq<char>| reg.contains_key(p) || p == key_path || is_ancestor(p, key_path),
            |p: Seq<char>| if reg.contains_key(p) {
                reg[p]
            } else {
                Map::empty()
            },
        ),
        RegOpView::SetValue { key_path, name, data, .. } => if reg.contains_key(key_path) {
            reg.insert(key_path, reg[key_path].insert(name, data))
        } else {
            reg
        },
        RegOpView::DeleteValue { key_path, name } => if reg.contains_key(key_path) {
            reg.insert(key_path, reg[key_path].remove(name))
        } else {
            reg
        },
        RegOpView::DeleteTree { key_path } => Map::new(
            |p: Seq<char>| reg.contains_key(p) && !in_subtree(key_path, p),
            |p: Seq<char>| reg[p],
        ),
    }
}

/// The registry after a plan, and whether the plan ran to its end.
pub open spec fn run_plan(reg: RegistryView, ops: Seq<RegOpView>) -> (RegistryView, bool)
    decreases ops.len(),
{
    if ops.len() == 0 {
        (reg, true)
    } else {
        let next = spec_effect(reg, ops[0]);
        if spec_continues(ops[0], spec_outcome(reg, ops[0])) {
            run_plan(next, ops.drop_first())
        } else {
            (next, false)
        }
    }
}

/// The text of the value `name`, where the key has it and it fits the
/// read buffer.
pub open spec fn query_text(vals: ValuesView, name: Seq<char>) -> Option<Seq<char>> {
    if vals.contains_key(name) && vals[name].len() <= VALUE_BUFFER_UNITS {
        Some(utf16_decode(vals[name]))
    } else {
        None
    }
}

/// What a read of the item `key` under the context path `ctx` finds.
pub open spec fn raw_key_in(reg: RegistryView, ctx: Seq<char>, key: Seq<char>) -> RawKeyView {
    let kp = spec_join(ctx, key);
    let cp = spec_join(kp, command_key_name());
    RawKeyView {
        name: key,
        opened: reg.contains_key(kp),
        default_text: query_text(reg[kp], default_value_name()),
        command_text: if reg.contains_key(cp) {
            query_text(reg[cp], default_value_name())
        } else {
            None
        },
        icon_text: query_text(reg[kp], icon_value_name()),
        legacy_disable: reg[kp].contains_key(legacy_disable_name()),
    }
}

/// The item that a read of `key` under `ctx` gives, if any.
pub open spec fn spec_read_entry(reg: RegistryView, ctx: Seq<char>, key: Seq<char>) -> Option<
    MenuItemView,
> {
    spec_item_from_raw(raw_key_in(reg, ctx, key))
}

/// Whether `names` lists, each once, the names of the keys directly below
/// `ctx`, as enumerating the subkeys of `ctx` gives them.
pub open spec fn is_listing(reg: RegistryView, ctx: Seq<char>, names: Seq<Seq<char>>) -> bool {
    &&& names.no_duplicates()
    &&& forall|n: Seq<char>|
        #[trigger] names.contains(n) <==> (reg.contains_key(spec_join(ctx, n)) && !n.contains(
            '\\',
        ))
}

/// The items that a refresh of `ctx` lists, where enumerating its subkeys
/// gives `names`.
pub open spec fn spec_list_items(
    reg: RegistryView,
    ctx: Seq<char>,
    names: Seq<Seq<char>>,
) -> Seq<MenuItemView> {
    spec_items_from_raw(names.map_values(|n: Seq<char>| raw_key_in(reg, ctx, n)))
}

} // verus!
