//! Menu items, the form in which the user writes one, and the reading of
//! items from the values of their registry keys.
use vstd::prelude::*;

verus! {

/// One entry of a context menu, as read from its registry key.
#[derive(Clone, Debug, PartialEq, Eq)]
pub struct MenuItem {
    /// The name of the item's registry key.
    pub name: String,
    /// The text that the menu shows.
    pub display_name: String,
    /// The command line that the entry runs.
    pub command: String,
    /// The icon, where the key names a non-empty one.
    pub icon: Option<String>,
    /// Whether the key marks the entry as disabled.
    pub disabled: bool,
}

pub struct MenuItemView {
    pub name: Seq<char>,
    pub display_name: Seq<char>,
    pub command: Seq<char>,
    pub icon: Option<Seq<char>>,
    pub disabled: bool,
}

/// The view of an optional string.
pub open spec fn opt_str_view(o: Option<String>) -> Option<Seq<char>> {
    match o {
        Some(s) => Some(s@),
        None => None,
    }
}

impl View for MenuItem {
    type V = MenuItemView;

    open spec fn view(&self) -> MenuItemView {
        MenuItemView {
            name: self.name@,
            display_name: self.display_name@,
            command: self.command@,
            icon: opt_str_view(self.icon),
            disabled: self.disabled,
        }
    }
}

/// The views of a sequence of items.
pub open spec fn items_view(items: Seq<MenuItem>) -> Seq<MenuItemView> {
    items.map_values(|m: MenuItem| m@)
}

/// What the user writes in the item dialog.
#[derive(Clone, Debug, PartialEq, Eq)]
pub struct MenuItemForm {
    pub key_name: String,
    pub display_name: String,
    pub command: String,
    pub icon: String,
}

pub struct MenuItemFormView {
    pub key_name: Seq<char>,
    pub display_name: Seq<char>,
    pub command: Seq<char>,
    pub icon: Seq<char>,
}

impl View for MenuItemForm {
    type V = MenuItemFormView;

    open spec fn view(&self) -> MenuItemFormView {
        MenuItemFormView {
            key_name: self.key_name@,
            display_name: self.display_name@,
            command: self.command@,
            icon: self.icon@,
        }
    }
}

/// A form is complete when its key name, display name and command are
/// all non-empty; the icon may be empty.
pub open spec fn spec_form_complete(f: MenuItemFormView) -> bool {
    &&& f.key_name.len() > 0
    &&& f.display_name.len() > 0
    &&& f.command.len() > 0
}

/// The form that the edit dialog starts from: the item's fields, with an
/// empty icon where the item has none.
pub open spec fn spec_form_of_item(m: MenuItemView) -> MenuItemFormView {
    MenuItemFormView {
        key_name: m.name,
        display_name: m.display_name,
        command: m.command,
        icon: match m.icon {
            Some(i) => i,
            None => Seq::empty(),
        },
    }
}

impl Default for MenuItemForm {
    /// The blank form of the add dialog.
    fn default() -> (r: MenuItemForm)
        ensures
            r.key_name@ == Seq::<char>::empty(),
            r.display_name@ == Seq::<char>::empty(),
            r.command@ == Seq::<char>::empty(),
            r.icon@ == Seq::<char>::empty(),
    {
        MenuItemForm {
            key_name: String::new(),
            display_name: String::new(),
            command: String::new(),
            icon: String::new(),
        }
    }
}

impl MenuItemForm {
    /// Whether the key name, display name and command are all filled in.
    pub fn is_complete(&self) -> (r: bool)
        ensures
            r == spec_form_complete(self@),
    {
        !self.key_name.as_str().is_empty() && !self.display_name.as_str().is_empty()
            && !self.command.as_str().is_empty()
    }

    /// The form that edits `item`.
    pub fn from_item(item: &MenuItem) -> (r: MenuItemForm)
        ensures
            r@ == spec_form_of_item(item@),
    {
        let icon = match &item.icon {
            Some(i) => i.clone(),
            None => String::new(),
        };
        MenuItemForm {
            key_name: item.name.clone(),
            display_name: item.display_name.clone(),
            command: item.command.clone(),
            icon,
        }
    }
}

/// What a read of one subkey of a context's `shell` key found: the
/// subkey's name, whether it could be opened, the texts of its default
/// value, of the default value of its `command` subkey and of its `Icon`
/// value where each could be read, and whether it has a `LegacyDisable`
/// value.
#[derive(Clone, Debug, PartialEq, Eq)]
pub struct RawKey {
    pub name: String,
    pub opened: bool,
    pub default_text: Option<String>,
    pub command_text: Option<String>,
    pub icon_text: Option<String>,
    pub legacy_disable: bool,
}

pub struct RawKeyView {
    pub name: Seq<char>,
    pub opened: bool,
    pub default_text: Option<Seq<char>>,
    pub command_text: Option<Seq<char>>,
    pub icon_text: Option<Seq<char>>,
    pub legacy_disable: bool,
}

impl View for RawKey {
    type V = RawKeyView;

    open spec fn view(&self) -> RawKeyView {
        RawKeyView {
            name: self.name@,
            opened: self.opened,
            default_text: opt_str_view(self.default_text),
            command_text: opt_str_view(self.command_text),
            icon_text: opt_str_view(self.icon_text),
            legacy_disable: self.legacy_disable,
        }
    }
}

/// The item that a read subkey gives: none where the subkey could not be
/// opened; else the display name is the default value's text or, lacking
/// one, the key's name; the command is the command text or empty; the icon
/// is the icon text where it is non-empty; the item is disabled where the
/// key has a `LegacyDisable` value.
pub open spec fn spec_item_from_raw(r: RawKeyView) -> Option<MenuItemView> {
    if !r.opened {
        None
    } else {
        Some(
            MenuItemView {
                name: r.name,
                display_name: match r.default_text {
                    Some(t) => t,
                    None => r.name,
                },
                command: match r.command_text {
                    Some(t) => t,
                    None => Seq::empty(),
                },
                icon: match r.icon_text {
                    Some(t) => if t.len() > 0 {
                        Some(t)
                    } else {
                        None
                    },
                    None => None,
                },
                disabled: r.legacy_disable,
            },
        )
    }
}

/// The items that a sequence of read subkeys gives, in order, leaving out
/// the subkeys that could not be opened.
pub open spec fn spec_items_from_raw(rs: Seq<RawKeyView>) -> Seq<MenuItemView>
    decreases rs.len(),
{
    if rs.len() == 0 {
        Seq::empty()
    } else {
        let prev = spec_items_from_raw(rs.drop_last());
        match spec_item_from_raw(rs.last()) {
            Some(m) => prev.push(m),
            None => prev,
        }
    }
}

/// The views of a sequence of read subkeys.
pub open spec fn raw_keys_view(rs: Seq<RawKey>) -> Seq<RawKeyView> {
    rs.map_values(|r: RawKey| r@)
}

fn clone_opt(o: &Option<String>) -> (r: Option<String>)
    ensures
        opt_str_view(r) == opt_str_view(*o),
{
    match o {
        Some(s) => Some(s.clone()),
        None => None,
    }
}

/// The item that one read subkey gives.
pub fn item_from_raw(raw: &RawKey) -> (r: Option<MenuItem>)
    ensures
        match r {
            Some(m) => spec_item_from_raw(raw@) == Some(m@),
            None => spec_item_from_raw(raw@) is None,
        },
{
    if !raw.opened {
        return None;
    }
    let display_name = match &raw.default_text {
        Some(t) => t.clone(),
        None => raw.name.clone(),
    };
    let command = match &raw.command_text {
        Some(t) => t.clone(),
        None => String::new(),
    };
    let icon = match &raw.icon_text {
        Some(t) => if !t.as_str().is_empty() {
            Some(t.clone())
        } else {
            None
        },
        None => None,
    };
    let m = MenuItem {
        name: raw.name.clone(),
        display_name,
        command,
        icon,
        disabled: raw.legacy_disable,
    };
    proof {
        assert(m@ == spec_item_from_raw(raw@).unwrap());
    }
    Some(m)
}

/// The items that the read subkeys of a context give, in the order of the
/// reads.
pub fn items_from_raw(raws: &Vec<RawKey>) -> (r: Vec<MenuItem>)
    ensures
        items_view(r@) == spec_items_from_raw(raw_keys_view(raws@)),
{
    let mut out: Vec<MenuItem> = Vec::new();
    let n = raws.len();
    for i in 0..n
        invariant
            n == raws@.len(),
            items_view(out@) == spec_items_from_raw(raw_keys_view(raws@.take(i as int))),
    {
        let ghost before = out@;
        let m = item_from_raw(&raws[i]);
        proof {
            assert(raws@.take(i + 1).drop_last() =~= raws@.take(i as int));
            assert(raw_keys_view(raws@.take(i + 1)).drop_last() =~= raw_keys_view(
                raws@.take(i as int),
            ));
            assert(raw_keys_view(raws@.take(i + 1)).last() == raws@[i as int]@);
        }
        match m {
            Some(m) => {
                out.push(m);
                proof {
                    assert(items_view(out@) =~= items_view(before).push(out@.last()@));
                }
            },
            None => {},
        }
    }
    proof {
        assert(raws@.take(n as int) =~= raws@);
    }
    out
}

/// The status column's text for an item.
pub open spec fn spec_status_text(disabled: bool) -> Seq<char> {
    if disabled {
        "已禁用"@
    } else {
        "已启用"@
    }
}

/// The status column's text: disabled or enabled.
pub fn status_text(disabled: bool) -> (r: &'static str)
    ensures
        r@ == spec_status_text(disabled),
{
    if disabled {
        "已禁用"
    } else {
        "已启用"
    }
}

/// One row of the item list: display name, key name, command and status.
#[derive(Clone, Debug, PartialEq, Eq)]
pub struct ListRow {
    pub display_name: String,
    pub key_name: String,
    pub command: String,
    pub status: String,
}

pub struct ListRowView {
    pub display_name: Seq<char>,
    pub key_name: Seq<char>,
    pub command: Seq<char>,
    pub status: Seq<char>,
}

impl View for ListRow {
    type V = ListRowView;

    open spec fn view(&self) -> ListRowView {
        ListRowView {
            display_name: self.display_name@,
            key_name: self.key_name@,
            command: self.command@,
            status: self.status@,
        }
    }
}

/// The row that the list shows for an item.
pub open spec fn spec_row_of(m: MenuItemView) -> ListRowView {
    ListRowView {
        display_name: m.display_name,
        key_name: m.name,
        command: m.command,
        status: spec_status_text(m.disabled),
    }
}

/// The rows of the item list, one for each item, in order.
pub fn list_rows(items: &Vec<MenuItem>) -> (r: Vec<ListRow>)
    ensures
        r@.len() == items@.len(),
        forall|i: int| 0 <= i < items@.len() ==> #[trigger] r@[i]@ == spec_row_of(items@[i]@),
{
    let mut out: Vec<ListRow> = Vec::new();
    let n = items.len();
    for i in 0..n
        invariant
            n == items@.len(),
            out@.len() == i,
            forall|j: int| 0 <= j < i ==> #[trigger] out@[j]@ == spec_row_of(items@[j]@),
    {
        let item = &items[i];
        let status = String::from_str(status_text(item.disabled));
        out.push(
            ListRow {
                display_name: item.display_name.clone(),
                key_name: item.name.clone(),
                command: item.command.clone(),
                status,
            },
        );
    }
    out
}

} // verus!
