//! The kinds of context menu that the manager edits, and where each lives
//! under HKEY_CLASSES_ROOT.
use vstd::prelude::*;

verus! {

/// A kind of context menu: of files, of folders, of drives, or of the
/// desktop background.
#[derive(Clone, Copy, Debug, PartialEq, Eq, Structural)]
pub enum ContextType {
    File,
    Folder,
    Drive,
    Desktop,
}

/// The registry path, relative to HKEY_CLASSES_ROOT, of the `shell` key
/// that holds the menu items of a context.
pub open spec fn spec_reg_path(c: ContextType) -> Seq<char> {
    match c {
        ContextType::File => "*\\shell"@,
        ContextType::Folder => "Folder\\shell"@,
        ContextType::Drive => "Drive\\shell"@,
        ContextType::Desktop => "DesktopBackground\\shell"@,
    }
}

/// The name under which a context is offered in the context selector.
pub open spec fn spec_display_name(c: ContextType) -> Seq<char> {
    match c {
        ContextType::File => "文件 (*)"@,
        ContextType::Folder => "文件夹"@,
        ContextType::Drive => "驱动器"@,
        ContextType::Desktop => "桌面背景"@,
    }
}

/// The item data that the context selector stores for a context: its
/// position in the selector.
pub open spec fn spec_item_data(c: ContextType) -> isize {
    match c {
        ContextType::File => 0,
        ContextType::Folder => 1,
        ContextType::Drive => 2,
        ContextType::Desktop => 3,
    }
}

/// The context that the selector's item data names, read as an `i8`:
/// 0 to 3 name the four contexts, any other value none.
pub open spec fn spec_from_item_data(data: isize) -> Option<ContextType> {
    let b = data as i8;
    if b == 0 {
        Some(ContextType::File)
    } else if b == 1 {
        Some(ContextType::Folder)
    } else if b == 2 {
        Some(ContextType::Drive)
    } else if b == 3 {
        Some(ContextType::Desktop)
    } else {
        None
    }
}

/// The contexts in the order in which the selector lists them.
pub open spec fn spec_all_contexts() -> Seq<ContextType> {
    seq![ContextType::File, ContextType::Folder, ContextType::Drive, ContextType::Desktop]
}

impl ContextType {
    /// The registry path of the context's `shell` key.
    pub fn reg_path(&self) -> (r: &'static str)
        ensures
            r@ == spec_reg_path(*self),
    {
        match self {
            ContextType::File => "*\\shell",
            ContextType::Folder => "Folder\\shell",
            ContextType::Drive => "Drive\\shell",
            ContextType::Desktop => "DesktopBackground\\shell",
        }
    }

    /// The name of the context in the selector.
    pub fn display_name(&self) -> (r: &'static str)
        ensures
            r@ == spec_display_name(*self),
    {
        match self {
            ContextType::File => "文件 (*)",
            ContextType::Folder => "文件夹",
            ContextType::Drive => "驱动器",
            ContextType::Desktop => "桌面背景",
        }
    }

    /// The item data stored with the context in the selector.
    pub fn item_data(&self) -> (r: isize)
        ensures
            r == spec_item_data(*self),
    {
        match self {
            ContextType::File => 0,
            ContextType::Folder => 1,
            ContextType::Drive => 2,
            ContextType::Desktop => 3,
        }
    }

    /// The context that a selector item's data names, if any.
    pub fn from_item_data(data: isize) -> (r: Option<ContextType>)
        ensures
            r == spec_from_item_data(data),
    {
        #[verifier::truncate]
        let b: i8 = data as i8;
        if b == 0 {
            Some(ContextType::File)
        } else if b == 1 {
            Some(ContextType::Folder)
        } else if b == 2 {
            Some(ContextType::Drive)
        } else if b == 3 {
            Some(ContextType::Desktop)
        } else {
            None
        }
    }

    /// All contexts, in the order of the selector.
    pub fn all() -> (r: Vec<ContextType>)
        ensures
            r@ == spec_all_contexts(),
    {
        let v = vec![ContextType::File, ContextType::Folder, ContextType::Drive, ContextType::Desktop];
        proof {
            assert(v@ =~= spec_all_contexts());
        }
        v
    }
}

/// Reading back the item data that the selector stores for a context
/// names that context again, and the selector's position of a context is
/// its item data.
pub proof fn law_item_data_round_trip(c: ContextType)
    ensures
        spec_from_item_data(spec_item_data(c)) == Some(c),
        spec_all_contexts()[spec_item_data(c) as int] == c,
{
    let d = spec_item_data(c);
    assert(0 <= d <= 3);
    assert((d as i8) == d) by (bit_vector)
        requires
            0 <= d <= 3,
    ;
}

} // verus!
