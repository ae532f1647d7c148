use vstd::prelude::*;

use crate::notebook::TabView;
use crate::shell::{Shell, build_shell, is_built_shell};

verus! {

/// A user interaction, as the widget layer reports it.
#[derive(Clone, Copy, Debug)]
pub enum UiEvent {
    /// The File menu's "Open" item was activated.
    OpenActivated,
    /// The File menu's "Quit" item was activated.
    QuitActivated,
    /// The primary-modifier+Q accelerator fired.
    QuitAccelerator,
    /// The close button in the header of the tab at `index` was clicked.
    TabCloseClicked { index: usize },
}

/// What the widget layer is to do in answer to an event.
#[derive(Clone, Copy, Debug, PartialEq, Eq, Structural)]
pub enum UiCommand {
    /// Nothing: the event has no observable effect.
    Idle,
    /// Close the main window, which ends the run loop.
    CloseWindow,
    /// Remove the tab at `index` from the tabbed container.
    RemoveTab { index: usize },
}

/// The parts of the application an event can touch: whether the main
/// window is open, and the row of tabs.
pub struct AppView {
    pub window_open: bool,
    pub tabs: Seq<TabView>,
}

/// The whole application: whether the main window is open, and the
/// widget tree the shell built.
pub struct AppState {
    pub window_open: bool,
    pub shell: Shell,
}

impl View for AppState {
    type V = AppView;

    open spec fn view(&self) -> AppView {
        AppView { window_open: self.window_open, tabs: self.shell.notebook@ }
    }
}

/// What one event does to the state, and the command it issues:
/// "Open" does nothing; "Quit", by menu or by accelerator, closes the
/// window; a tab's close button removes that tab alone.
pub open spec fn step(state: AppView, event: UiEvent) -> (AppView, UiCommand) {
    match event {
        UiEvent::OpenActivated => (state, UiCommand::Idle),
        UiEvent::QuitActivated => (
            (AppView { window_open: false, tabs: state.tabs }),
            UiCommand::CloseWindow,
        ),
        UiEvent::QuitAccelerator => (
            (AppView { window_open: false, tabs: state.tabs }),
            UiCommand::CloseWindow,
        ),
        UiEvent::TabCloseClicked { index } => if (index as int) < state.tabs.len() {
            (
                (AppView { window_open: state.window_open, tabs: state.tabs.remove(index as int) }),
                (UiCommand::RemoveTab { index }),
            )
        } else {
            (state, UiCommand::Idle)
        },
    }
}

/// The state after a whole run of events, applied left to right.
pub open spec fn run(state: AppView, events: Seq<UiEvent>) -> AppView
    decreases events.len(),
{
    if events.len() == 0 {
        state
    } else {
        run(step(state, events[0]).0, events.drop_first())
    }
}

impl AppState {
    /// The application as it stands right after launch: the window
    /// open and the shell freshly assembled.
    pub fn launch() -> (state: AppState)
        ensures
            state.window_open,
            is_built_shell(state.shell),
    {
        AppState { window_open: true, shell: build_shell() }
    }

    /// Applies one event: the state changes exactly as `step` says and
    /// the returned command is what `step` issues. The window
    /// description, the menus and the accelerators never change, and
    /// activating "Open" leaves the whole state untouched.
    pub fn handle_event(&mut self, event: &UiEvent) -> (cmd: UiCommand)
        ensures
            final(self)@.window_open == step(old(self)@, *event).0.window_open,
            final(self)@.tabs =~= step(old(self)@, *event).0.tabs,
            cmd == step(old(self)@, *event).1,
            final(self).shell.window == old(self).shell.window,
            final(self).shell.menus == old(self).shell.menus,
            final(self).shell.accelerators == old(self).shell.accelerators,
            *event is OpenActivated ==> *final(self) == *old(self),
    {
        match event {
            UiEvent::OpenActivated => UiCommand::Idle,
            UiEvent::QuitActivated => {
                self.window_open = false;
                UiCommand::CloseWindow
            },
            UiEvent::QuitAccelerator => {
                self.window_open = false;
                UiCommand::CloseWindow
            },
            UiEvent::TabCloseClicked { index } => {
                if *index < self.shell.notebook.count() {
                    self.shell.notebook.close_tab(*index);
                    UiCommand::RemoveTab { index: *index }
                } else {
                    UiCommand::Idle
                }
            },
        }
    }
}

/// Law: with the window open, an event closes it exactly when it is
/// "Quit" — the menu item or the accelerator. Those two events issue
/// the close-window command, and no other event does.
pub proof fn lemma_quit_is_the_only_close(state: AppView, event: UiEvent)
    requires
        state.window_open,
    ensures
        !step(state, event).0.window_open <==> (event is QuitActivated || event is QuitAccelerator),
        step(state, event).1 == UiCommand::CloseWindow <==> (event is QuitActivated
            || event is QuitAccelerator),
{
}

/// Law: any number of "Open" activations, and nothing else, leaves
/// the application state exactly as it was.
pub proof fn lemma_open_has_no_effect(state: AppView, events: Seq<UiEvent>)
    requires
        forall|i: int| 0 <= i < events.len() ==> events[i] is OpenActivated,
    ensures
        run(state, events) == state,
    decreases events.len(),
{
    if events.len() > 0 {
        assert(events[0] is OpenActivated);
        lemma_open_has_no_effect(state, events.drop_first());
    }
}

/// Law: clicking the close button of the tab at `index` removes that
/// tab alone: every tab left of it keeps its place, every tab right
/// of it moves down by one, and the window stays open as it was.
pub proof fn lemma_close_removes_only_that_tab(state: AppView, index: usize)
    requires
        (index as int) < state.tabs.len(),
    ensures
        step(state, (UiEvent::TabCloseClicked { index })).0.window_open == state.window_open,
        step(state, (UiEvent::TabCloseClicked { index })).0.tabs.len() == state.tabs.len() - 1,
        forall|k: int|
            0 <= k < index ==> step(state, (UiEvent::TabCloseClicked { index })).0.tabs[k]
                == state.tabs[k],
        forall|k: int|
            index <= k < state.tabs.len() - 1 ==> step(
                state,
                (UiEvent::TabCloseClicked { index }),
            ).0.tabs[k] == state.tabs[k + 1],
        step(state, (UiEvent::TabCloseClicked { index })).1 == (UiCommand::RemoveTab { index }),
{
    state.tabs.remove_ensures(index as int);
}

} // verus!
