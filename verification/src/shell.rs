use vstd::prelude::*;

use crate::menu::{AcceleratorConfig, MenuConfig, file_menu, is_file_menu, is_quit_accelerator,
    quit_accelerator};
use crate::notebook::{Notebook, TabView, tab_view};

verus! {

/// How the main window is to appear: its title, whether it is placed
/// centered on the screen, and its minimum size request.
#[derive(Debug)]
pub struct WindowConfig {
    pub title: String,
    pub centered: bool,
    pub min_width: i32,
    pub min_height: i32,
}

/// The main window as the shell requests it: titled "RegView",
/// centered, at least 400 by 400.
pub open spec fn is_main_window(window: WindowConfig) -> bool {
    &&& window.title@ == "RegView"@
    &&& window.centered
    &&& window.min_width == 400
    &&& window.min_height == 400
}

/// The three sheets the notebook starts with: "sheet 1" to "sheet 3",
/// in order, each showing its own title as placeholder body text.
pub open spec fn initial_tabs() -> Seq<TabView> {
    seq![
        tab_view("sheet 1"@, "sheet 1"@),
        tab_view("sheet 2"@, "sheet 2"@),
        tab_view("sheet 3"@, "sheet 3"@),
    ]
}

/// Everything the shell assembles on activation: one window, the menu
/// bar's menus, the registered accelerators, and the notebook.
pub struct Shell {
    pub window: WindowConfig,
    pub menus: Vec<MenuConfig>,
    pub accelerators: Vec<AcceleratorConfig>,
    pub notebook: Notebook,
}

/// The shell exactly as built: the main window, one File menu, one
/// quit accelerator, and the three initial sheets.
pub open spec fn is_built_shell(shell: Shell) -> bool {
    &&& is_main_window(shell.window)
    &&& shell.menus@.len() == 1
    &&& is_file_menu(shell.menus@[0])
    &&& shell.accelerators@.len() == 1
    &&& is_quit_accelerator(shell.accelerators@[0])
    &&& shell.notebook@ =~= initial_tabs()
}

/// Assembles the visible application: the main window, the menu bar
/// with its single File menu, the quit accelerator, and the notebook
/// holding the three initial sheets, each with a close button and a
/// label matching its title as content.
pub fn build_shell() -> (shell: Shell)
    ensures
        is_built_shell(shell),
        shell.notebook@.len() == 3,
{
    let window = WindowConfig {
        title: "RegView".to_owned(),
        centered: true,
        min_width: 400,
        min_height: 400,
    };

    let mut menus: Vec<MenuConfig> = Vec::new();
    menus.push(file_menu());

    let mut accelerators: Vec<AcceleratorConfig> = Vec::new();
    accelerators.push(quit_accelerator());

    let mut notebook = Notebook::new();
    notebook.create_tab("sheet 1".to_owned(), "sheet 1".to_owned());
    notebook.create_tab("sheet 2".to_owned(), "sheet 2".to_owned());
    notebook.create_tab("sheet 3".to_owned(), "sheet 3".to_owned());

    Shell { window, menus, accelerators, notebook }
}

} // verus!
