//! The state of the manager's main window: the context shown, its items,
//! and whether the process may change the registry; and the plans that the
//! window's operations carry out.
use vstd::prelude::*;
use crate::context::{ContextType, spec_from_item_data, spec_reg_path};
use crate::menu::{
    MenuItem,
    MenuItemForm,
    MenuItemView,
    items_view,
    spec_form_complete,
    spec_form_of_item,
};
use crate::registry::{
    RegOp,
    create_plan,
    delete_plan,
    disable_plan,
    plan_view,
    spec_create_plan,
    spec_delete_plan,
    spec_disable_plan,
    spec_update_plan,
    update_plan,
};

verus! {

/// Why the item dialog's form was refused.
#[derive(Clone, Copy, Debug, PartialEq, Eq, Structural)]
pub enum FormError {
    /// The key name, the display name or the command is empty.
    Incomplete,
}

/// The main window's state.
pub struct AppState {
    /// The context whose items are shown.
    pub current_context: ContextType,
    /// The items last read for that context.
    pub menu_items: Vec<MenuItem>,
    /// Whether the process runs with administrator rights.
    pub is_admin: bool,
}

impl AppState {
    /// The state at start: the file context, no items read yet.
    pub fn new(is_admin: bool) -> (r: AppState)
        ensures
            r.current_context == ContextType::File,
            r.menu_items@.len() == 0,
            r.is_admin == is_admin,
    {
        AppState { current_context: ContextType::File, menu_items: Vec::new(), is_admin }
    }

    /// Where a refresh reads the items from: nowhere without administrator
    /// rights (the window reports that instead), else the `shell` key of
    /// the current context.
    pub fn refresh_source(&self) -> (r: Option<&'static str>)
        ensures
            match r {
                Some(p) => self.is_admin && p@ == spec_reg_path(self.current_context),
                None => !self.is_admin,
            },
    {
        if !self.is_admin {
            None
        } else {
            Some(self.current_context.reg_path())
        }
    }

    /// Takes the outcome of a refresh: the items read, or none where the
    /// read failed.
    pub fn finish_refresh(&mut self, read: Option<Vec<MenuItem>>)
        ensures
            final(self).current_context == old(self).current_context,
            final(self).is_admin == old(self).is_admin,
            items_view(final(self).menu_items@) == match read {
                Some(v) => items_view(v@),
                None => Seq::<MenuItemView>::empty(),
            },
    {
        match read {
            Some(v) => {
                self.menu_items = v;
            },
            None => {
                self.menu_items = Vec::new();
                proof {
                    assert(items_view(self.menu_items@) =~= Seq::<MenuItemView>::empty());
                }
            },
        }
    }

    /// Takes the item data of the context that the selector now shows:
    /// where it names a context, that context becomes the current one.
    pub fn select_context(&mut self, data: isize)
        ensures
            final(self).current_context == match spec_from_item_data(data) {
                Some(c) => c,
                None => old(self).current_context,
            },
            final(self).menu_items@ == old(self).menu_items@,
            final(self).is_admin == old(self).is_admin,
    {
        match ContextType::from_item_data(data) {
            Some(c) => {
                self.current_context = c;
            },
            None => {},
        }
    }

    /// The writes that add the item of a form to the current context, or
    /// the refusal of an incomplete form.
    pub fn plan_add(&self, form: &MenuItemForm) -> (r: Result<Vec<RegOp>, FormError>)
        ensures
            match r {
                Ok(ops) => spec_form_complete(form@) && plan_view(ops@) == spec_create_plan(
                    spec_reg_path(self.current_context),
                    form@,
                ),
                Err(e) => !spec_form_complete(form@) && e == FormError::Incomplete,
            },
    {
        if !form.is_complete() {
            return Err(FormError::Incomplete);
        }
        Ok(create_plan(self.current_context.reg_path(), form))
    }

    /// The form that the edit dialog starts from for the item at `index`.
    pub fn edit_form(&self, index: usize) -> (r: MenuItemForm)
        requires
            index < self.menu_items@.len(),
        ensures
            r@ == spec_form_of_item(self.menu_items@[index as int]@),
    {
        MenuItemForm::from_item(&self.menu_items[index])
    }

    /// The writes that store an edited form over the item at `index`, or
    /// the refusal of an incomplete form.
    pub fn plan_edit(&self, index: usize, form: &MenuItemForm) -> (r: Result<
        Vec<RegOp>,
        FormError,
    >)
        requires
            index < self.menu_items@.len(),
        ensures
            match r {
                Ok(ops) => spec_form_complete(form@) && plan_view(ops@) == spec_update_plan(
                    spec_reg_path(self.current_context),
                    self.menu_items@[index as int].name@,
                    form@,
                ),
                Err(e) => !spec_form_complete(form@) && e == FormError::Incomplete,
            },
    {
        if !form.is_complete() {
            return Err(FormError::Incomplete);
        }
        Ok(update_plan(self.current_context.reg_path(), &self.menu_items[index].name, form))
    }

    /// The writes that delete the item at `index`.
    pub fn plan_delete(&self, index: usize) -> (r: Vec<RegOp>)
        requires
            index < self.menu_items@.len(),
        ensures
            plan_view(r@) == spec_delete_plan(
                spec_reg_path(self.current_context),
                self.menu_items@[index as int].name@,
            ),
    {
        delete_plan(self.current_context.reg_path(), self.menu_items[index].name.as_str())
    }

    /// The state that toggling gives the item at `index`, the opposite of
    /// its current one, and the writes that set it.
    pub fn plan_toggle(&self, index: usize) -> (r: (bool, Vec<RegOp>))
        requires
            index < self.menu_items@.len(),
        ensures
            r.0 == !self.menu_items@[index as int].disabled,
            plan_view(r.1@) == spec_disable_plan(
                spec_reg_path(self.current_context),
                self.menu_items@[index as int].name@,
                r.0,
            ),
    {
        let item = &self.menu_items[index];
        let new_disabled = !item.disabled;
        (
            new_disabled,
            disable_plan(self.current_context.reg_path(), item.name.as_str(), new_disabled),
        )
    }
}

/// Whether a query of the process token shows administrator rights: the
/// token could be opened, its elevation could be read, and it is elevated.
pub fn token_shows_admin(token_opened: bool, query_ok: bool, token_is_elevated: u32) -> (r: bool)
    ensures
        r == (token_opened && query_ok && token_is_elevated != 0),
{
    if !token_opened {
        return false;
    }
    query_ok && token_is_elevated != 0
}

} // verus!
