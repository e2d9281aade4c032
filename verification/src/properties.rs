//! What the window and form operations are for, stated over all inputs:
//! which forms are accepted, what the edit dialog starts from, what the
//! list shows, how the dialog answers messages, which row a selection
//! names, and the like.
use vstd::prelude::*;
use crate::context::{
    ContextType,
    spec_all_contexts,
    spec_from_item_data,
    spec_item_data,
    spec_display_name,
    spec_reg_path,
};
use crate::menu::{
    MenuItemFormView,
    MenuItemView,
    RawKeyView,
    spec_form_complete,
    spec_form_of_item,
    spec_item_from_raw,
    spec_items_from_raw,
    spec_row_of,
    spec_status_text,
};
use crate::registry::{
    command_key_name,
    default_value_name,
    icon_value_name,
    legacy_disable_name,
    spec_join,
};
use crate::model::{OpOutcome, spec_continues};
use crate::registry::RegOpView;
use crate::utf16::{char_units, utf16_decode, utf16_encode};
use crate::ui::{
    CB_ERR,
    DialogEvent,
    DialogReaction,
    MainCommand,
    Operation,
    spec_command_id,
    spec_dialog_reaction,
    spec_dialog_title,
    spec_failure_prefix,
    spec_main_command,
    spec_needs_selection,
    spec_registry_buttons,
    spec_selection,
    spec_success_message,
};

verus! {

/// A form is accepted exactly when its key name, display name and command
/// are non-empty, whatever characters they hold; the icon plays no part.
pub proof fn law_form_complete_iff_fields_non_empty(f: MenuItemFormView, icon: Seq<char>)
    ensures
        spec_form_complete(f) <==> (f.key_name.len() > 0 && f.display_name.len() > 0
            && f.command.len() > 0),
        spec_form_complete(f) == spec_form_complete(MenuItemFormView { icon, ..f }),
{
}

/// The edit dialog starts from the item as it is: its key name, display
/// name and command, and its icon or an empty one where it has none,
/// whether the item is enabled or disabled.
pub proof fn law_edit_form_carries_item(m: MenuItemView)
    ensures
        spec_form_of_item(m).key_name == m.name,
        spec_form_of_item(m).display_name == m.display_name,
        spec_form_of_item(m).command == m.command,
        m.icon is Some ==> spec_form_of_item(m).icon == m.icon->0,
        m.icon is None ==> spec_form_of_item(m).icon.len() == 0,
        spec_form_of_item(m) == spec_form_of_item(MenuItemView { disabled: !m.disabled, ..m }),
{
}

/// Editing an item and storing the form unchanged keeps its icon: the
/// form's icon is non-empty exactly where the item has a non-empty icon.
pub proof fn law_edit_form_keeps_icon(m: MenuItemView)
    ensures
        (spec_form_of_item(m).icon.len() > 0) <==> (m.icon is Some && m.icon->0.len() > 0),
{
}

/// The two status texts differ: disabled items and enabled items show
/// different statuses.
pub proof fn law_status_texts_differ()
    ensures
        spec_status_text(true) != spec_status_text(false),
        spec_status_text(true) == "已禁用"@,
        spec_status_text(false) == "已启用"@,
{
    reveal_strlit("已禁用");
    reveal_strlit("已启用");
    assert("已禁用"@[1] != "已启用"@[1]);
}

/// Each row shows its item's display name, key name and command, whether
/// the item is enabled or disabled, and the status of the item's disabled
/// state.
pub proof fn law_row_shows_item(m: MenuItemView)
    ensures
        spec_row_of(m).display_name == m.display_name,
        spec_row_of(m).key_name == m.name,
        spec_row_of(m).command == m.command,
        spec_row_of(m).status == spec_status_text(m.disabled),
        spec_row_of(MenuItemView { disabled: !m.disabled, ..m }).command == m.command,
        spec_row_of(MenuItemView { disabled: !m.disabled, ..m }).display_name == m.display_name,
        spec_row_of(MenuItemView { disabled: !m.disabled, ..m }).key_name == m.name,
{
}

/// Only OK accepts the dialog, only Cancel or closing its window cancels
/// it; a command from any other control, and any other message, leaves it
/// open.
pub proof fn law_dialog_only_ok_and_cancel_close(id: i32)
    ensures
        spec_dialog_reaction(DialogEvent::Command(1)) == DialogReaction::Accept,
        spec_dialog_reaction(DialogEvent::Command(2)) == DialogReaction::Cancel,
        spec_dialog_reaction(DialogEvent::Close) == DialogReaction::Cancel,
        spec_dialog_reaction(DialogEvent::Other) == DialogReaction::PassThrough,
        id != 1 && id != 2 ==> spec_dialog_reaction(DialogEvent::Command(id))
            == DialogReaction::PassThrough,
{
}

/// The list names no row exactly when it answers -1; any non-negative
/// answer names that row.
pub proof fn law_selection_names_the_row(l: isize)
    ensures
        spec_selection(l) is None <==> l == -1,
        l >= 0 ==> spec_selection(l) == Some(l as usize),
        l >= 0 ==> spec_selection(l)->0 as int == l as int,
{
}

/// The selector's "no selection" answer is -1.
pub proof fn law_no_combo_selection_is_minus_one()
    ensures
        CB_ERR == -1,
{
}

/// A command's control id is the low 16 bits of its message parameter.
pub proof fn law_command_id_is_low_word(wparam: usize)
    ensures
        spec_command_id(wparam) as int == wparam as int % 0x10000,
        0 <= spec_command_id(wparam) < 0x10000,
{
    let w32 = wparam as u32;
    assert(w32 % 0x10000 == wparam % 0x10000) by (bit_vector)
        requires
            w32 == wparam as u32,
    ;
}

/// Each button of the main window asks for its own operation, and every
/// other control id, the list's included, is ignored.
pub proof fn law_main_commands(id: i32)
    ensures
        spec_main_command(1002) == MainCommand::Refresh,
        spec_main_command(1004) == MainCommand::Add,
        spec_main_command(1005) == MainCommand::Edit,
        spec_main_command(1006) == MainCommand::Delete,
        spec_main_command(1007) == MainCommand::ToggleDisabled,
        spec_main_command(1001) == MainCommand::ContextChanged,
        !(id == 1001 || id == 1002 || id == 1004 || id == 1005 || id == 1006 || id == 1007)
            ==> spec_main_command(id) == MainCommand::Ignored,
{
}

/// Exactly edit, delete and enable/disable work on the selected row.
pub proof fn law_row_commands(c: MainCommand)
    ensures
        spec_needs_selection(c) <==> (c == MainCommand::Edit || c == MainCommand::Delete || c
            == MainCommand::ToggleDisabled),
{
}

/// Without administrator rights the four buttons that change the registry
/// (add, edit, delete, enable/disable) are disabled, and no other.
pub proof fn law_registry_buttons()
    ensures
        spec_registry_buttons() =~= seq![1004i32, 1005i32, 1006i32, 1007i32],
{
}

/// The dialog titles of adding and of editing differ.
pub proof fn law_dialog_titles()
    ensures
        spec_dialog_title(true) == "添加右键菜单项"@,
        spec_dialog_title(false) == "编辑右键菜单项"@,
        spec_dialog_title(true) != spec_dialog_title(false),
{
    reveal_strlit("添加右键菜单项");
    reveal_strlit("编辑右键菜单项");
    assert("添加右键菜单项"@[0] != "编辑右键菜单项"@[0]);
}

/// Each operation reports success with its own text, and disabling and
/// enabling report differently.
pub proof fn law_success_messages(op: Operation)
    ensures
        spec_success_message(Operation::Add) == "菜单项添加成功"@,
        spec_success_message(Operation::Edit) == "菜单项更新成功"@,
        spec_success_message(Operation::Delete) == "菜单项已删除"@,
        spec_success_message(Operation::SetDisabled(true)) == "菜单项已禁用"@,
        spec_success_message(Operation::SetDisabled(false)) == "菜单项已启用"@,
        spec_success_message(Operation::SetDisabled(true)) != spec_success_message(
            Operation::SetDisabled(false),
        ),
        spec_failure_prefix(Operation::Add) == "添加失败："@,
        spec_failure_prefix(Operation::Edit) == "更新失败："@,
        spec_failure_prefix(Operation::Delete) == "删除失败："@,
        spec_failure_prefix(Operation::SetDisabled(op->0)) == "操作失败："@,
{
    reveal_strlit("菜单项已禁用");
    reveal_strlit("菜单项已启用");
    assert("菜单项已禁用"@[4] != "菜单项已启用"@[4]);
}

/// A subkey that could not be opened gives no item; an opened one gives
/// the item named after it, shown with its default text or else its name,
/// running its command text or else nothing, with its icon text where that
/// is non-empty, and disabled exactly where the key has `LegacyDisable`.
pub proof fn law_item_from_raw(r: RawKeyView)
    ensures
        spec_item_from_raw(r) is Some <==> r.opened,
        r.opened ==> spec_item_from_raw(r)->0.name == r.name,
        r.opened && r.default_text is Some ==> spec_item_from_raw(r)->0.display_name
            == r.default_text->0,
        r.opened && r.default_text is None ==> spec_item_from_raw(r)->0.display_name == r.name,
        r.opened && r.command_text is Some ==> spec_item_from_raw(r)->0.command
            == r.command_text->0,
        r.opened && r.command_text is None ==> spec_item_from_raw(r)->0.command.len() == 0,
        r.opened ==> (spec_item_from_raw(r)->0.icon is Some <==> (r.icon_text is Some
            && r.icon_text->0.len() > 0)),
        r.opened && spec_item_from_raw(r)->0.icon is Some ==> spec_item_from_raw(r)->0.icon->0
            == r.icon_text->0,
        r.opened ==> spec_item_from_raw(r)->0.disabled == r.legacy_disable,
{
}

/// Every listed item comes from an opened subkey, every opened subkey
/// gives a listed item, and no more items are listed than subkeys read.
pub proof fn law_items_from_raw(rs: Seq<RawKeyView>, i: int, j: int)
    ensures
        spec_items_from_raw(rs).len() <= rs.len(),
        0 <= i < spec_items_from_raw(rs).len() ==> exists|k: int|
            0 <= k < rs.len() && rs[k].opened && #[trigger] spec_item_from_raw(rs[k]) == Some(
                spec_items_from_raw(rs)[i],
            ),
        0 <= j < rs.len() && rs[j].opened ==> spec_items_from_raw(rs).contains(
            spec_item_from_raw(rs[j])->0,
        ),
    decreases rs.len(),
{
    if rs.len() > 0 {
        let prev = spec_items_from_raw(rs.drop_last());
        let items = spec_items_from_raw(rs);
        law_items_from_raw(rs.drop_last(), i, j);
        if 0 <= i < prev.len() {
            let k = choose|k: int|
                0 <= k < rs.drop_last().len() && rs.drop_last()[k].opened
                    && #[trigger] spec_item_from_raw(rs.drop_last()[k]) == Some(prev[i]);
            assert(rs[k] == rs.drop_last()[k]);
            assert(items[i] == prev[i]);
            assert(spec_item_from_raw(rs[k]) == Some(items[i]));
        } else if 0 <= i < items.len() {
            assert(spec_item_from_raw(rs[rs.len() - 1]) == Some(items[i]));
        }
        if 0 <= j < rs.len() && rs[j].opened {
            if j == rs.len() - 1 {
                assert(items[prev.len() as int] == spec_item_from_raw(rs[j])->0);
            } else {
                assert(rs.drop_last()[j] == rs[j]);
                let k = choose|k: int| 0 <= k < prev.len() && prev[k] == spec_item_from_raw(rs[j])->0;
                assert(items[k] == prev[k]);
            }
        }
    }
}

/// The contexts are the four kinds, each once, each with its own `shell`
/// key, and the selector's item data names each back.
pub proof fn law_contexts(c: ContextType, d: ContextType)
    ensures
        spec_all_contexts().len() == 4,
        spec_all_contexts().contains(c),
        spec_from_item_data(spec_item_data(c)) == Some(c),
        c != d ==> spec_reg_path(c) != spec_reg_path(d),
        c != d ==> spec_item_data(c) != spec_item_data(d),
{
    crate::context::law_item_data_round_trip(c);
    assert(spec_all_contexts()[spec_item_data(c) as int] == c);
    reveal_strlit("*\\shell");
    reveal_strlit("Folder\\shell");
    reveal_strlit("Drive\\shell");
    reveal_strlit("DesktopBackground\\shell");
    if c != d {
        let a = spec_reg_path(c);
        let b = spec_reg_path(d);
        if a.len() == b.len() {
            assert(a[0] != b[0]);
        }
    }
}

/// Reading two runs of subkeys one after the other lists the items of the
/// first run, then those of the second, each in the order read.
pub proof fn law_items_from_raw_concat(a: Seq<RawKeyView>, b: Seq<RawKeyView>)
    ensures
        spec_items_from_raw(a + b) == spec_items_from_raw(a) + spec_items_from_raw(b),
        spec_items_from_raw(Seq::empty()) == Seq::<MenuItemView>::empty(),
    decreases b.len(),
{
    if b.len() == 0 {
        assert(a + b =~= a);
        assert(spec_items_from_raw(a) + spec_items_from_raw(b) =~= spec_items_from_raw(a));
    } else {
        law_items_from_raw_concat(a, b.drop_last());
        assert((a + b).drop_last() =~= a + b.drop_last());
        assert((a + b).last() == b.last());
        match spec_item_from_raw(b.last()) {
            Some(m) => {
                assert(spec_items_from_raw(a + b) =~= spec_items_from_raw(a) + spec_items_from_raw(
                    b,
                ));
            },
            None => {},
        }
    }
}

/// The selector's item data names a context exactly when, read as an
/// `i8`, it is 0 to 3, and then the context whose item data that is.
pub proof fn law_item_data_names_context(data: isize, c: ContextType)
    ensures
        spec_from_item_data(data) is Some <==> (0 <= (data as i8) && (data as i8) <= 3),
        spec_from_item_data(data) == Some(c) ==> spec_item_data(c) == (data as i8) as isize,
{
}

/// The four contexts are offered under four different names.
pub proof fn law_context_names_differ(c: ContextType, d: ContextType)
    ensures
        c != d ==> spec_display_name(c) != spec_display_name(d),
        spec_display_name(ContextType::File) == "文件 (*)"@,
        spec_display_name(ContextType::Folder) == "文件夹"@,
        spec_display_name(ContextType::Drive) == "驱动器"@,
        spec_display_name(ContextType::Desktop) == "桌面背景"@,
{
    reveal_strlit("文件 (*)");
    reveal_strlit("文件夹");
    reveal_strlit("驱动器");
    reveal_strlit("桌面背景");
    if c != d {
        let a = spec_display_name(c);
        let b = spec_display_name(d);
        if a.len() == b.len() {
            assert(a[0] != b[0]);
        }
    }
}

/// The path of a child key is the parent's path, a backslash, then the
/// child's name.
pub proof fn law_join(parent: Seq<char>, child: Seq<char>, i: int)
    ensures
        spec_join(parent, child).len() == parent.len() + 1 + child.len(),
        spec_join(parent, child)[parent.len() as int] == '\\',
        0 <= i < parent.len() ==> spec_join(parent, child)[i] == parent[i],
        0 <= i < child.len() ==> spec_join(parent, child)[parent.len() + 1 + i] == child[i],
{
}

/// The names the item's values and subkey go by: the default value has
/// the empty name, the icon is `Icon`, the disabled mark `LegacyDisable`,
/// and the command lives in the subkey `command`.
pub proof fn law_value_and_key_names()
    ensures
        default_value_name().len() == 0,
        icon_value_name() == "Icon"@,
        legacy_disable_name() == "LegacyDisable"@,
        command_key_name() == "command"@,
{
}

/// A character below U+10000 is encoded as the one unit of its value, a
/// character above as the surrogate pair that decodes back to it; the
/// encoding of a text is that of its characters one after the other.
pub proof fn law_encode_units(c: char, s: Seq<char>, t: Seq<char>)
    ensures
        (c as u32) < 0x10000 ==> char_units(c) == seq![(c as u32) as u16],
        (c as u32) >= 0x10000 ==> {
            &&& char_units(c).len() == 2
            &&& 0xD800 <= char_units(c)[0] <= 0xDBFF
            &&& 0xDC00 <= char_units(c)[1] <= 0xDFFF
            &&& 0x10000 + (char_units(c)[0] - 0xD800) * 0x400 + (char_units(c)[1] - 0xDC00)
                == c as u32
        },
        utf16_encode(s + t) == utf16_encode(s) + utf16_encode(t),
    decreases s.len(),
{
    vstd::utf8::char_is_scalar(c);
    if (c as u32) >= 0x10000 {
        let v = c as u32;
        assert(0x10000 + ((v - 0x10000) / 0x400) * 0x400 + (v - 0x10000) % 0x400 == v);
    }
    if s.len() == 0 {
        assert(s + t =~= t);
        assert(utf16_encode(s) + utf16_encode(t) =~= utf16_encode(t));
    } else {
        law_encode_units(c, s.drop_first(), t);
        assert((s + t).drop_first() =~= s.drop_first() + t);
        assert((s + t)[0] == s[0]);
        assert(utf16_encode(s + t) =~= utf16_encode(s) + utf16_encode(t));
    }
}

/// Decoding turns an unpaired surrogate into U+FFFD and any other lone
/// unit into the character of that value.
pub proof fn law_decode_single_unit(u: u16)
    ensures
        (0xD800 <= u <= 0xDFFF) ==> utf16_decode(seq![u]) == seq!['\u{FFFD}'],
        !(0xD800 <= u <= 0xDFFF) ==> utf16_decode(seq![u]) == seq![(u as u32) as char],
{
    assert(seq![u].skip(1) =~= Seq::<u16>::empty());
    assert(utf16_decode(Seq::<u16>::empty()) =~= Seq::<char>::empty());
    assert(seq!['\u{FFFD}'] + Seq::<char>::empty() =~= seq!['\u{FFFD}']);
    assert(seq![(u as u32) as char] + Seq::<char>::empty() =~= seq![(u as u32) as char]);
}

/// A plan goes on after a write that was done; it stops after a key that
/// could not be created or opened, except that a tree deletion never stops
/// it; and a failed write stops it only where the write is a checked value
/// write.
pub proof fn law_continuation(op: RegOpView, outcome: OpOutcome)
    ensures
        outcome == OpOutcome::Done ==> spec_continues(op, outcome),
        op is DeleteTree ==> spec_continues(op, outcome),
        !(op is DeleteTree) && outcome == OpOutcome::OpenFailed ==> !spec_continues(op, outcome),
        outcome == OpOutcome::WriteFailed ==> (spec_continues(op, outcome) <==> match op {
            RegOpView::CreateKey { .. } => false,
            RegOpView::SetValue { checked, .. } => !checked,
            _ => true,
        }),
{
}

} // verus!
