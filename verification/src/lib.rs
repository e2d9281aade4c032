//! Verified logic of a manager for the entries of the Windows Explorer
//! context menu: the menu contexts and their registry paths, the menu item
//! model, the registry writes that add, edit, delete, enable or disable an
//! item, the reading of items back from registry values, and the decisions
//! of the main window and of the item dialog.
pub mod ui;
pub mod utf16;
pub mod context;
pub mod menu;
pub mod registry;
pub mod model;
pub mod laws;
pub mod app_state;
pub mod properties;
