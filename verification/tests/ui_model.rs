use regview::controller::{AppState, UiCommand, UiEvent};
use regview::menu::{MenuAction, MenuEntry};
use regview::notebook::Notebook;
use regview::shell::build_shell;

#[test]
fn window_is_regview_centered_400() {
    let shell = build_shell();
    assert_eq!(shell.window.title, "RegView");
    assert!(shell.window.centered);
    assert!(shell.window.min_width >= 400);
    assert!(shell.window.min_height >= 400);
    assert_eq!(shell.window.min_width, 400);
    assert_eq!(shell.window.min_height, 400);
}

#[test]
fn menu_bar_is_file_open_separator_quit() {
    let shell = build_shell();
    assert_eq!(shell.menus.len(), 1);
    let file = &shell.menus[0];
    assert_eq!(file.label, "File");
    assert_eq!(file.entries.len(), 3);
    match &file.entries[0] {
        MenuEntry::Item { label, action } => {
            assert_eq!(label, "Open");
            assert!(action.is_none());
        }
        other => panic!("expected the Open item, got {:?}", other),
    }
    assert!(matches!(file.entries[1], MenuEntry::Separator));
    match &file.entries[2] {
        MenuEntry::Item { label, action } => {
            assert_eq!(label, "Quit");
            assert!(matches!(action, Some(MenuAction::Quit)));
        }
        other => panic!("expected the Quit item, got {:?}", other),
    }
}

#[test]
fn quit_accelerator_is_primary_q() {
    let shell = build_shell();
    assert_eq!(shell.accelerators.len(), 1);
    let accel = &shell.accelerators[0];
    assert!(accel.primary_modifier);
    assert_eq!(accel.key, 'Q');
    assert!(matches!(accel.action, MenuAction::Quit));
}

#[test]
fn notebook_starts_with_three_sheets() {
    let shell = build_shell();
    assert_eq!(shell.notebook.count(), 3);
    for (i, want) in ["sheet 1", "sheet 2", "sheet 3"].iter().enumerate() {
        let tab = shell.notebook.tab(i);
        assert_eq!(&tab.title, want);
        assert_eq!(tab.content_text, tab.title);
    }
}

#[test]
fn quit_menu_item_closes_window() {
    let mut state = AppState::launch();
    assert!(state.window_open);
    let cmd = state.handle_event(&UiEvent::QuitActivated);
    assert!(matches!(cmd, UiCommand::CloseWindow));
    assert!(!state.window_open);
}

#[test]
fn quit_accelerator_closes_window() {
    let mut state = AppState::launch();
    let cmd = state.handle_event(&UiEvent::QuitAccelerator);
    assert!(matches!(cmd, UiCommand::CloseWindow));
    assert!(!state.window_open);
}

#[test]
fn only_quit_closes_window() {
    let mut state = AppState::launch();
    let cmd = state.handle_event(&UiEvent::OpenActivated);
    assert!(matches!(cmd, UiCommand::Idle));
    assert!(state.window_open);
    let cmd = state.handle_event(&UiEvent::TabCloseClicked { index: 0 });
    assert!(matches!(cmd, UiCommand::RemoveTab { index: 0 }));
    assert!(state.window_open);
}

#[test]
fn repeated_open_changes_nothing() {
    let mut state = AppState::launch();
    for _ in 0..10 {
        let cmd = state.handle_event(&UiEvent::OpenActivated);
        assert!(matches!(cmd, UiCommand::Idle));
        assert!(state.window_open);
        assert_eq!(state.shell.window.title, "RegView");
        assert_eq!(state.shell.menus.len(), 1);
        assert_eq!(state.shell.menus[0].entries.len(), 3);
        assert_eq!(state.shell.accelerators.len(), 1);
        assert_eq!(state.shell.notebook.count(), 3);
        for (i, want) in ["sheet 1", "sheet 2", "sheet 3"].iter().enumerate() {
            assert_eq!(&state.shell.notebook.tab(i).title, want);
        }
    }
}

#[test]
fn new_notebook_is_empty() {
    let nb = Notebook::new();
    assert_eq!(nb.count(), 0);
}

#[test]
fn created_tabs_are_appended_in_order() {
    let shell = build_shell();
    let mut nb = shell.notebook;
    let extra = ["alpha", "beta", "gamma", "delta", "epsilon"];
    for title in extra.iter() {
        nb.create_tab(title.to_string(), format!("body of {}", title));
    }
    assert_eq!(nb.count(), 3 + extra.len());
    for (i, want) in ["sheet 1", "sheet 2", "sheet 3"].iter().enumerate() {
        assert_eq!(&nb.tab(i).title, want);
    }
    for (i, want) in extra.iter().enumerate() {
        assert_eq!(&nb.tab(3 + i).title, want);
        assert_eq!(nb.tab(3 + i).content_text, format!("body of {}", want));
    }
}

#[test]
fn closing_a_tab_removes_only_that_tab() {
    let mut state = AppState::launch();
    let cmd = state.handle_event(&UiEvent::TabCloseClicked { index: 1 });
    assert!(matches!(cmd, UiCommand::RemoveTab { index: 1 }));
    assert_eq!(state.shell.notebook.count(), 2);
    assert_eq!(state.shell.notebook.tab(0).title, "sheet 1");
    assert_eq!(state.shell.notebook.tab(1).title, "sheet 3");
    assert!(state.window_open);
}

#[test]
fn closing_first_and_last_tabs() {
    let mut nb = Notebook::new();
    for title in ["a", "b", "c", "d"] {
        nb.create_tab(title.to_string(), title.to_string());
    }
    nb.close_tab(0);
    assert_eq!(nb.count(), 3);
    assert_eq!(nb.tab(0).title, "b");
    nb.close_tab(2);
    assert_eq!(nb.count(), 2);
    assert_eq!(nb.tab(0).title, "b");
    assert_eq!(nb.tab(1).title, "c");
}

#[test]
fn close_click_out_of_range_is_idle() {
    let mut state = AppState::launch();
    let cmd = state.handle_event(&UiEvent::TabCloseClicked { index: 99 });
    assert!(matches!(cmd, UiCommand::Idle));
    assert_eq!(state.shell.notebook.count(), 3);
    assert!(state.window_open);
}
