use vstd::prelude::*;

verus! {

/// The action a menu item or an accelerator is bound to.
#[derive(Clone, Copy, Debug, PartialEq, Eq, Structural)]
pub enum MenuAction {
    /// Close the main window, which ends the run loop.
    Quit,
}

/// One child of a menu: a labelled item, bound to an action or inert,
/// or a visual separator.
#[derive(Debug)]
pub enum MenuEntry {
    Item { label: String, action: Option<MenuAction> },
    Separator,
}

/// A top-level menu: the label shown in the menu bar and its children,
/// in order.
#[derive(Debug)]
pub struct MenuConfig {
    pub label: String,
    pub entries: Vec<MenuEntry>,
}

/// A keyboard accelerator: a key struck together with the platform's
/// primary modifier (Ctrl on Linux and Windows, Cmd on macOS), bound
/// to an action regardless of focus.
#[derive(Clone, Copy, Debug)]
pub struct AcceleratorConfig {
    pub primary_modifier: bool,
    pub key: char,
    pub action: MenuAction,
}

/// The File menu exactly as the shell shows it: "Open" with no action
/// bound, a separator, then "Quit" bound to the quit action.
pub open spec fn is_file_menu(menu: MenuConfig) -> bool {
    &&& menu.label@ == "File"@
    &&& menu.entries@.len() == 3
    &&& (menu.entries@[0] matches MenuEntry::Item { label, action }
        && label@ == "Open"@ && action is None)
    &&& menu.entries@[1] is Separator
    &&& (menu.entries@[2] matches MenuEntry::Item { label, action }
        && label@ == "Quit"@ && action == Some(MenuAction::Quit))
}

/// The accelerator the shell registers: primary modifier + Q, bound to
/// the quit action.
pub open spec fn is_quit_accelerator(accel: AcceleratorConfig) -> bool {
    &&& accel.primary_modifier
    &&& accel.key == 'Q'
    &&& accel.action == MenuAction::Quit
}

/// Builds the File menu: "Open" (label only), a separator, "Quit".
pub fn file_menu() -> (menu: MenuConfig)
    ensures
        is_file_menu(menu),
{
    let mut entries: Vec<MenuEntry> = Vec::new();
    entries.push(MenuEntry::Item { label: "Open".to_owned(), action: None });
    entries.push(MenuEntry::Separator);
    entries.push(MenuEntry::Item { label: "Quit".to_owned(), action: Some(MenuAction::Quit) });
    MenuConfig { label: "File".to_owned(), entries }
}

/// Builds the quit accelerator: primary modifier + Q.
pub fn quit_accelerator() -> (accel: AcceleratorConfig)
    ensures
        is_quit_accelerator(accel),
{
    AcceleratorConfig { primary_modifier: true, key: 'Q', action: MenuAction::Quit }
}

} // verus!
