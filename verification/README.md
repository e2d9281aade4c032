# right_click_manager

A manager for the entries of the Windows Explorer context menu (files,
folders, drives, desktop background), kept under `HKEY_CLASSES_ROOT`.

- `src/` is the verified library: menu contexts and their registry paths
  (`context`), menu items and their reading from registry values (`menu`),
  UTF-16 registry text (`utf16`), the plans of registry writes that add,
  edit, delete, disable and enable an item (`registry`), a registry model
  that states what those plans do (`model`, `laws`), the main window's state
  (`app_state`) and the window and dialog decisions (`ui`).
- `app/` is the Windows program: windows, dialogs, message boxes and the
  registry calls that carry out the library's plans.
- `tests/` exercise the library, including the plans against an in-memory
  registry.
