use right_click_manager::ui::{
    combo_has_selection, report_outcome,
    buttons_to_disable,
    command_id, dialog_reaction, dialog_title, failure_message, incomplete_form_message, loword,
    main_command, needs_selection, not_admin_message, selection_from_lresult, success_message,
    DialogEvent, DialogReaction, DialogState, MainCommand, Operation, IDCANCEL, IDOK,
};

#[test]
fn loword_keeps_low_sixteen_bits() {
    assert_eq!(loword(0x1234_5678), 0x5678);
    assert_eq!(loword(0xFFFF), 0xFFFF);
    assert_eq!(loword(0x1_0000), 0);
}

#[test]
fn command_id_reads_low_word_of_wparam() {
    assert_eq!(command_id(1002), 1002);
    assert_eq!(command_id(0x0001_03EA), 1002);
}

#[test]
fn main_commands_by_control_id() {
    assert_eq!(main_command(1002), MainCommand::Refresh);
    assert_eq!(main_command(1004), MainCommand::Add);
    assert_eq!(main_command(1005), MainCommand::Edit);
    assert_eq!(main_command(1006), MainCommand::Delete);
    assert_eq!(main_command(1007), MainCommand::ToggleDisabled);
    assert_eq!(main_command(1001), MainCommand::ContextChanged);
    assert_eq!(main_command(1003), MainCommand::Ignored);
    assert_eq!(main_command(0), MainCommand::Ignored);
}

#[test]
fn only_row_commands_need_a_selection() {
    assert!(needs_selection(MainCommand::Edit));
    assert!(needs_selection(MainCommand::Delete));
    assert!(needs_selection(MainCommand::ToggleDisabled));
    assert!(!needs_selection(MainCommand::Add));
    assert!(!needs_selection(MainCommand::Refresh));
    assert!(!needs_selection(MainCommand::ContextChanged));
}

#[test]
fn selection_minus_one_is_none() {
    assert_eq!(selection_from_lresult(-1), None);
    assert_eq!(selection_from_lresult(0), Some(0));
    assert_eq!(selection_from_lresult(7), Some(7));
}

#[test]
fn dialog_reactions() {
    assert_eq!(dialog_reaction(DialogEvent::Command(IDOK)), DialogReaction::Accept);
    assert_eq!(dialog_reaction(DialogEvent::Command(IDCANCEL)), DialogReaction::Cancel);
    assert_eq!(dialog_reaction(DialogEvent::Command(2001)), DialogReaction::PassThrough);
    assert_eq!(dialog_reaction(DialogEvent::Close), DialogReaction::Cancel);
    assert_eq!(dialog_reaction(DialogEvent::Other), DialogReaction::PassThrough);
}

#[test]
fn dialog_state_closes_on_accept_and_cancel() {
    let mut s = DialogState::opened();
    assert!(!s.closed && !s.accepted);
    s.apply(DialogReaction::PassThrough);
    assert!(!s.closed && !s.accepted);
    s.apply(DialogReaction::Accept);
    assert!(s.closed && s.accepted);
    let mut t = DialogState::opened();
    t.apply(DialogReaction::Cancel);
    assert!(t.closed && !t.accepted);
}

#[test]
fn dialog_titles() {
    assert_eq!(dialog_title(true), "添加右键菜单项");
    assert_eq!(dialog_title(false), "编辑右键菜单项");
}

#[test]
fn outcome_texts() {
    assert_eq!(success_message(Operation::Add), "菜单项添加成功");
    assert_eq!(success_message(Operation::Edit), "菜单项更新成功");
    assert_eq!(success_message(Operation::Delete), "菜单项已删除");
    assert_eq!(success_message(Operation::SetDisabled(true)), "菜单项已禁用");
    assert_eq!(success_message(Operation::SetDisabled(false)), "菜单项已启用");
    assert_eq!(failure_message(Operation::Add, "拒绝访问。"), "添加失败：拒绝访问。");
    assert_eq!(failure_message(Operation::Edit, "x"), "更新失败：x");
    assert_eq!(failure_message(Operation::Delete, "x"), "删除失败：x");
    assert_eq!(failure_message(Operation::SetDisabled(true), "x"), "操作失败：x");
    assert_eq!(incomplete_form_message(), "键名、显示名称和命令不能为空");
    assert!(not_admin_message().starts_with("程序未以管理员身份运行"));
}

#[test]
fn registry_buttons_disabled_without_admin() {
    assert_eq!(buttons_to_disable(false), vec![1004, 1005, 1006, 1007]);
    assert!(buttons_to_disable(true).is_empty());
}

#[test]
fn reports_of_outcomes() {
    let ok = report_outcome(Operation::Add, true, "");
    assert_eq!(ok.text, "菜单项添加成功");
    assert_eq!(ok.caption, "成功");
    assert!(!ok.is_error && ok.refresh);
    let failed = report_outcome(Operation::SetDisabled(false), false, "拒绝访问。");
    assert_eq!(failed.text, "操作失败：拒绝访问。");
    assert_eq!(failed.caption, "错误");
    assert!(failed.is_error && !failed.refresh);
}

#[test]
fn combo_selection_minus_one_is_none() {
    assert!(!combo_has_selection(-1));
    assert!(combo_has_selection(0));
    assert!(combo_has_selection(3));
}
