//! The decisions of the main window and of the item dialog: which command
//! a message names, how the dialog reacts to it, which list row is
//! selected, and the texts that report the outcome of an operation.
use vstd::prelude::*;

verus! {

/// Control id of the context selector.
pub const IDC_COMBO_CONTEXT: i32 = 1001;

/// Control id of the refresh button.
pub const IDC_BUTTON_REFRESH: i32 = 1002;

/// Control id of the item list.
pub const IDC_LIST_VIEW: i32 = 1003;

/// Control id of the add button.
pub const IDC_BUTTON_ADD: i32 = 1004;

/// Control id of the edit button.
pub const IDC_BUTTON_EDIT: i32 = 1005;

/// Control id of the delete button.
pub const IDC_BUTTON_DELETE: i32 = 1006;

/// Control id of the enable/disable button.
pub const IDC_BUTTON_ENABLE_DISABLE: i32 = 1007;

/// Control id of the dialog's key name field.
pub const IDC_EDIT_KEY_NAME: i32 = 2001;

/// Control id of the dialog's display name field.
pub const IDC_EDIT_DISPLAY_NAME: i32 = 2002;

/// Control id of the dialog's command field.
pub const IDC_EDIT_COMMAND: i32 = 2003;

/// Control id of the dialog's icon field.
pub const IDC_EDIT_ICON: i32 = 2004;

/// Control id of the dialog's OK button.
pub const IDOK: i32 = 1;

/// Control id of the dialog's cancel button.
pub const IDCANCEL: i32 = 2;

/// The low-order 16 bits of a message parameter.
pub fn loword(l: u32) -> (r: u16)
    ensures
        r == l % 0x10000,
{
    let m: u32 = l & 0xFFFF;
    assert(m == l % 0x10000) by (bit_vector)
        requires
            m == l & 0xFFFF,
    ;
    m as u16
}

/// The control id that a command message's `wparam` carries: the low word
/// of its low 32 bits.
pub open spec fn spec_command_id(wparam: usize) -> i32 {
    ((wparam as u32) % 0x10000) as i32
}

/// The control id that a command message's `wparam` carries.
pub fn command_id(wparam: usize) -> (r: i32)
    ensures
        r == spec_command_id(wparam),
{
    #[verifier::truncate]
    let low: u32 = wparam as u32;
    loword(low) as i32
}

/// What a command message to the main window asks for.
#[derive(Clone, Copy, Debug, PartialEq, Eq, Structural)]
pub enum MainCommand {
    Refresh,
    Add,
    Edit,
    Delete,
    ToggleDisabled,
    ContextChanged,
    Ignored,
}

/// The request that a control id names.
pub open spec fn spec_main_command(id: i32) -> MainCommand {
    if id == IDC_BUTTON_REFRESH {
        MainCommand::Refresh
    } else if id == IDC_BUTTON_ADD {
        MainCommand::Add
    } else if id == IDC_BUTTON_EDIT {
        MainCommand::Edit
    } else if id == IDC_BUTTON_DELETE {
        MainCommand::Delete
    } else if id == IDC_BUTTON_ENABLE_DISABLE {
        MainCommand::ToggleDisabled
    } else if id == IDC_COMBO_CONTEXT {
        MainCommand::ContextChanged
    } else {
        MainCommand::Ignored
    }
}

/// The request that a command from the control `id` makes of the main
/// window.
pub fn main_command(id: i32) -> (r: MainCommand)
    ensures
        r == spec_main_command(id),
{
    if id == IDC_BUTTON_REFRESH {
        MainCommand::Refresh
    } else if id == IDC_BUTTON_ADD {
        MainCommand::Add
    } else if id == IDC_BUTTON_EDIT {
        MainCommand::Edit
    } else if id == IDC_BUTTON_DELETE {
        MainCommand::Delete
    } else if id == IDC_BUTTON_ENABLE_DISABLE {
        MainCommand::ToggleDisabled
    } else if id == IDC_COMBO_CONTEXT {
        MainCommand::ContextChanged
    } else {
        MainCommand::Ignored
    }
}

/// Whether a request works on the selected list row.
pub open spec fn spec_needs_selection(c: MainCommand) -> bool {
    c == MainCommand::Edit || c == MainCommand::Delete || c == MainCommand::ToggleDisabled
}

/// Whether a request works on the selected list row, so that it is
/// dropped when no row is selected.
pub fn needs_selection(c: MainCommand) -> (r: bool)
    ensures
        r == spec_needs_selection(c),
{
    match c {
        MainCommand::Edit | MainCommand::Delete | MainCommand::ToggleDisabled => true,
        _ => false,
    }
}

/// The selected row that the list reports: none for -1, else the row
/// index.
pub open spec fn spec_selection(lresult: isize) -> Option<usize> {
    if lresult == -1 {
        None
    } else {
        Some(lresult as usize)
    }
}

/// The selected row that the list's answer to a next-selected-item query
/// names.
pub fn selection_from_lresult(lresult: isize) -> (r: Option<usize>)
    ensures
        r == spec_selection(lresult),
{
    if lresult == -1 {
        None
    } else {
        #[verifier::truncate]
        let i: usize = lresult as usize;
        Some(i)
    }
}

/// A message that reached the item dialog.
#[derive(Clone, Copy, Debug, PartialEq, Eq, Structural)]
pub enum DialogEvent {
    /// A command from the control with this id.
    Command(i32),
    /// A request to close the dialog window.
    Close,
    /// Any other message.
    Other,
}

/// How the item dialog answers a message.
#[derive(Clone, Copy, Debug, PartialEq, Eq, Structural)]
pub enum DialogReaction {
    /// Take the fields into the form and close, accepted.
    Accept,
    /// Close, not accepted.
    Cancel,
    /// Leave the message to the default handling.
    PassThrough,
}

/// OK accepts, cancel and closing the window cancel, anything else passes
/// through.
pub open spec fn spec_dialog_reaction(e: DialogEvent) -> DialogReaction {
    match e {
        DialogEvent::Command(id) => if id == IDOK {
            DialogReaction::Accept
        } else if id == IDCANCEL {
            DialogReaction::Cancel
        } else {
            DialogReaction::PassThrough
        },
        DialogEvent::Close => DialogReaction::Cancel,
        DialogEvent::Other => DialogReaction::PassThrough,
    }
}

/// How the item dialog answers a message.
pub fn dialog_reaction(e: DialogEvent) -> (r: DialogReaction)
    ensures
        r == spec_dialog_reaction(e),
{
    match e {
        DialogEvent::Command(id) => if id == IDOK {
            DialogReaction::Accept
        } else if id == IDCANCEL {
            DialogReaction::Cancel
        } else {
            DialogReaction::PassThrough
        },
        DialogEvent::Close => DialogReaction::Cancel,
        DialogEvent::Other => DialogReaction::PassThrough,
    }
}

/// Where a shown item dialog stands: whether it has closed, and whether it
/// was accepted.
#[derive(Clone, Copy, Debug, PartialEq, Eq, Structural)]
pub struct DialogState {
    pub closed: bool,
    pub accepted: bool,
}

impl DialogState {
    /// A dialog just shown: open, not accepted.
    pub fn opened() -> (r: DialogState)
        ensures
            !r.closed,
            !r.accepted,
    {
        DialogState { closed: false, accepted: false }
    }

    /// Applies the dialog's answer to a message: accepting closes it
    /// accepted, cancelling closes it not accepted, anything else leaves it
    /// as it is.
    pub fn apply(&mut self, reaction: DialogReaction)
        ensures
            match reaction {
                DialogReaction::Accept => final(self).closed && final(self).accepted,
                DialogReaction::Cancel => final(self).closed && !final(self).accepted,
                DialogReaction::PassThrough => *final(self) == *old(self),
            },
    {
        match reaction {
            DialogReaction::Accept => {
                self.closed = true;
                self.accepted = true;
            },
            DialogReaction::Cancel => {
                self.closed = true;
                self.accepted = false;
            },
            DialogReaction::PassThrough => {},
        }
    }
}

/// The buttons that change the registry: add, edit, delete and
/// enable/disable.
pub open spec fn spec_registry_buttons() -> Seq<i32> {
    seq![IDC_BUTTON_ADD, IDC_BUTTON_EDIT, IDC_BUTTON_DELETE, IDC_BUTTON_ENABLE_DISABLE]
}

/// The buttons that the main window disables when it is created: the
/// buttons that change the registry where the process lacks administrator
/// rights, none where it has them.
pub fn buttons_to_disable(is_admin: bool) -> (r: Vec<i32>)
    ensures
        r@ == (if is_admin {
            Seq::<i32>::empty()
        } else {
            spec_registry_buttons()
        }),
{
    let mut v: Vec<i32> = Vec::new();
    if !is_admin {
        v.push(IDC_BUTTON_ADD);
        v.push(IDC_BUTTON_EDIT);
        v.push(IDC_BUTTON_DELETE);
        v.push(IDC_BUTTON_ENABLE_DISABLE);
        proof {
            assert(v@ =~= spec_registry_buttons());
        }
    } else {
        proof {
            assert(v@ =~= Seq::<i32>::empty());
        }
    }
    v
}

/// The title of the item dialog.
pub open spec fn spec_dialog_title(is_add: bool) -> Seq<char> {
    if is_add {
        "添加右键菜单项"@
    } else {
        "编辑右键菜单项"@
    }
}

/// The title of the item dialog, for adding or for editing.
pub fn dialog_title(is_add: bool) -> (r: &'static str)
    ensures
        r@ == spec_dialog_title(is_add),
{
    if is_add {
        "添加右键菜单项"
    } else {
        "编辑右键菜单项"
    }
}

/// An operation on a menu item, for the texts that report its outcome.
#[derive(Clone, Copy, Debug, PartialEq, Eq, Structural)]
pub enum Operation {
    Add,
    Edit,
    Delete,
    /// Setting the disabled state to the given value.
    SetDisabled(bool),
}

/// The text that reports a successful operation.
pub open spec fn spec_success_message(op: Operation) -> Seq<char> {
    match op {
        Operation::Add => "菜单项添加成功"@,
        Operation::Edit => "菜单项更新成功"@,
        Operation::Delete => "菜单项已删除"@,
        Operation::SetDisabled(d) => if d {
            "菜单项已禁用"@
        } else {
            "菜单项已启用"@
        },
    }
}

/// The text that reports a successful operation.
pub fn success_message(op: Operation) -> (r: &'static str)
    ensures
        r@ == spec_success_message(op),
{
    match op {
        Operation::Add => "菜单项添加成功",
        Operation::Edit => "菜单项更新成功",
        Operation::Delete => "菜单项已删除",
        Operation::SetDisabled(d) => if d {
            "菜单项已禁用"
        } else {
            "菜单项已启用"
        },
    }
}

/// The text before the error in the report of a failed operation.
pub open spec fn spec_failure_prefix(op: Operation) -> Seq<char> {
    match op {
        Operation::Add => "添加失败："@,
        Operation::Edit => "更新失败："@,
        Operation::Delete => "删除失败："@,
        Operation::SetDisabled(_) => "操作失败："@,
    }
}

/// The report of a failed operation: its prefix, then the error's text.
pub fn failure_message(op: Operation, error_text: &str) -> (r: String)
    ensures
        r@ == spec_failure_prefix(op) + error_text@,
{
    let prefix = match op {
        Operation::Add => "添加失败：",
        Operation::Edit => "更新失败：",
        Operation::Delete => "删除失败：",
        Operation::SetDisabled(_) => "操作失败：",
    };
    let mut s = String::from_str(prefix);
    s.append(error_text);
    s
}

/// How the window reports an operation whose writes were carried out: the
/// message box's text and caption, whether it reports an error, and
/// whether the item list is refreshed afterwards.
#[derive(Clone, Debug, PartialEq, Eq)]
pub struct Report {
    pub text: String,
    pub caption: String,
    pub is_error: bool,
    pub refresh: bool,
}

/// The report of an operation: on success its success text under the
/// caption of success, followed by a refresh; on failure its failure
/// prefix and the error's text under the caption of error, with no
/// refresh.
pub fn report_outcome(op: Operation, succeeded: bool, error_text: &str) -> (r: Report)
    ensures
        succeeded ==> {
            &&& r.text@ == spec_success_message(op)
            &&& r.caption@ == "成功"@
            &&& !r.is_error
            &&& r.refresh
        },
        !succeeded ==> {
            &&& r.text@ == spec_failure_prefix(op) + error_text@
            &&& r.caption@ == "错误"@
            &&& r.is_error
            &&& !r.refresh
        },
{
    if succeeded {
        Report {
            text: String::from_str(success_message(op)),
            caption: String::from_str("成功"),
            is_error: false,
            refresh: true,
        }
    } else {
        Report {
            text: failure_message(op, error_text),
            caption: String::from_str("错误"),
            is_error: true,
            refresh: false,
        }
    }
}

/// The answer of the context selector to a current-selection query when
/// nothing is selected.
pub const CB_ERR: isize = -1;

/// Whether the context selector's answer to a current-selection query
/// names a selection, so that its item data is read and the list
/// refreshed.
pub fn combo_has_selection(sel: isize) -> (r: bool)
    ensures
        r == (sel != CB_ERR),
{
    sel != CB_ERR
}

/// The report of a form whose key name, display name or command is empty.
pub fn incomplete_form_message() -> (r: &'static str)
    ensures
        r@ == "键名、显示名称和命令不能为空"@,
{
    "键名、显示名称和命令不能为空"
}

/// The report that the registry cannot be read or changed without
/// administrator rights.
pub fn not_admin_message() -> (r: &'static str)
    ensures
        r@ == "程序未以管理员身份运行，无法读取/修改注册表。请以管理员权限重新启动。"@,
{
    "程序未以管理员身份运行，无法读取/修改注册表。请以管理员权限重新启动。"
}

} // verus!
