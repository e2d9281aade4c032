use right_click_manager::app_state::{token_shows_admin, AppState, FormError};
use right_click_manager::context::ContextType;
use right_click_manager::menu::{MenuItem, MenuItemForm};
use right_click_manager::registry::{create_plan, delete_plan, disable_plan, update_plan};

fn s(x: &str) -> String {
    x.to_string()
}

fn item(name: &str, disabled: bool) -> MenuItem {
    MenuItem { name: s(name), display_name: s("D"), command: s("C"), icon: None, disabled }
}

fn state_with_items() -> AppState {
    let mut st = AppState::new(true);
    st.finish_refresh(Some(vec![item("a", false), item("b", true)]));
    st
}

#[test]
fn new_state_starts_on_files_with_no_items() {
    let st = AppState::new(false);
    assert_eq!(st.current_context, ContextType::File);
    assert!(st.menu_items.is_empty());
    assert!(!st.is_admin);
}

#[test]
fn refresh_needs_admin() {
    assert_eq!(AppState::new(false).refresh_source(), None);
    assert_eq!(AppState::new(true).refresh_source(), Some("*\\shell"));
}

#[test]
fn failed_refresh_empties_the_list() {
    let mut st = state_with_items();
    assert_eq!(st.menu_items.len(), 2);
    st.finish_refresh(None);
    assert!(st.menu_items.is_empty());
}

#[test]
fn selecting_a_context_by_item_data() {
    let mut st = AppState::new(true);
    st.select_context(2);
    assert_eq!(st.current_context, ContextType::Drive);
    assert_eq!(st.refresh_source(), Some("Drive\\shell"));
    st.select_context(9);
    assert_eq!(st.current_context, ContextType::Drive);
}

#[test]
fn add_refuses_incomplete_form() {
    let st = AppState::new(true);
    let f = MenuItemForm { key_name: s("k"), display_name: s(""), command: s("c"), icon: s("") };
    assert_eq!(st.plan_add(&f), Err(FormError::Incomplete));
}

#[test]
fn add_plans_create_in_current_context() {
    let mut st = AppState::new(true);
    st.select_context(3);
    let f = MenuItemForm { key_name: s("k"), display_name: s("d"), command: s("c"), icon: s("") };
    assert_eq!(st.plan_add(&f), Ok(create_plan("DesktopBackground\\shell", &f)));
}

#[test]
fn edit_starts_from_item_and_plans_update() {
    let st = state_with_items();
    let f = st.edit_form(1);
    assert_eq!(f.key_name, "b");
    let edited = MenuItemForm { key_name: s("b2"), ..f };
    assert_eq!(st.plan_edit(1, &edited), Ok(update_plan("*\\shell", &s("b"), &edited)));
    let bad = MenuItemForm { command: s(""), ..edited };
    assert_eq!(st.plan_edit(1, &bad), Err(FormError::Incomplete));
}

#[test]
fn delete_and_toggle_plans() {
    let st = state_with_items();
    assert_eq!(st.plan_delete(0), delete_plan("*\\shell", "a"));
    let (d, ops) = st.plan_toggle(0);
    assert!(d);
    assert_eq!(ops, disable_plan("*\\shell", "a", true));
    let (d, ops) = st.plan_toggle(1);
    assert!(!d);
    assert_eq!(ops, disable_plan("*\\shell", "b", false));
}

#[test]
fn admin_from_token() {
    assert!(token_shows_admin(true, true, 1));
    assert!(!token_shows_admin(true, true, 0));
    assert!(!token_shows_admin(true, false, 1));
    assert!(!token_shows_admin(false, true, 1));
}
