//! The visibility controller: a pure function from a UI event and the
//! window's live flags to one visibility action.
//!
//! The controller holds no state of its own. On every event the host reads
//! the window's current flags (the window is the source of truth and may
//! change outside this controller's control) and asks for the next action.
//! Because the decision depends only on the observed flags, the controller
//! tolerates events arriving in any order and in rapid succession.

use vstd::prelude::*;

verus! {

/// A menu entry selected from the tray menu, after its string identifier has
/// been classified by [`parse_menu_id`]. Identifiers outside the recognized
/// set classify as `Other` and are suppressed.
#[derive(Clone, Copy, Debug, PartialEq, Eq, Structural)]
pub enum MenuCommand {
    /// Show the window and focus it (`"show"` / `"open"`).
    Show,
    /// Show the window, focus it, and keep it always on top
    /// (`"show-on-top"` / `"open-on-top"`).
    ShowOnTop,
    /// Hide the window (`"hide"`).
    Hide,
    /// Quit the application (`"quit"`).
    Quit,
    /// Any other identifier; carries no action.
    Other,
}

/// A UI-originated event delivered to the controller.
#[derive(Clone, Copy, Debug, PartialEq, Eq, Structural)]
pub enum UiEvent {
    /// The tray icon was left-clicked (button released).
    TrayLeftClick,
    /// A tray menu entry was selected.
    MenuSelect(MenuCommand),
    /// The user asked to close the window.
    WindowCloseRequested,
    /// The window gained (`true`) or lost (`false`) focus.
    WindowFocusChanged(bool),
}

/// The window's live flags, read fresh from the window on every event and
/// never cached.
#[derive(Clone, Copy, Debug, PartialEq, Eq, Structural)]
pub struct WindowFlags {
    pub visible: bool,
    pub focused: bool,
    pub always_on_top: bool,
}

/// The directive the host carries out on the window. Every directive is
/// idempotent; if the window handle cannot be resolved the host treats the
/// action as a no-op rather than a fatal error.
#[derive(Clone, Copy, Debug, PartialEq, Eq, Structural)]
pub enum VisibilityAction {
    /// Show the window without changing focus.
    Show,
    /// Show the window and focus it.
    ShowFocused,
    /// Show the window, focus it, and set it always on top.
    ShowAlwaysOnTop,
    /// Hide the window. The window is never destroyed, only hidden.
    Hide,
    /// Focus the already-visible window.
    Focus,
    /// Exit the application.
    Exit,
    /// Do nothing.
    Suppress,
}

/// Configuration switches of the controller. `hide_on_blur` decides whether
/// losing window focus hides the window; it defaults to `false`.
#[derive(Clone, Copy, Debug, PartialEq, Eq, Structural)]
pub struct VisibilityConfig {
    pub hide_on_blur: bool,
}

impl Default for VisibilityConfig {
    /// The default policy: the window stays up when it loses focus.
    fn default() -> (c: Self)
        ensures
            c == (VisibilityConfig { hide_on_blur: false }),
    {
        VisibilityConfig { hide_on_blur: false }
    }
}

/// The menu command named by a string identifier: `"show"` and `"open"` are
/// synonyms, as are `"show-on-top"` and `"open-on-top"`; anything else is
/// `Other`.
pub open spec fn menu_command_of(id: Seq<char>) -> MenuCommand {
    if id == "show"@ || id == "open"@ {
        MenuCommand::Show
    } else if id == "show-on-top"@ || id == "open-on-top"@ {
        MenuCommand::ShowOnTop
    } else if id == "hide"@ {
        MenuCommand::Hide
    } else if id == "quit"@ {
        MenuCommand::Quit
    } else {
        MenuCommand::Other
    }
}

/// Classifies a tray-menu string identifier.
pub fn parse_menu_id(id: &String) -> (c: MenuCommand)
    ensures
        c == menu_command_of(id@),
{
    let show: String = "show".to_owned();
    let open: String = "open".to_owned();
    let show_on_top: String = "show-on-top".to_owned();
    let open_on_top: String = "open-on-top".to_owned();
    let hide: String = "hide".to_owned();
    let quit: String = "quit".to_owned();
    if *id == show || *id == open {
        MenuCommand::Show
    } else if *id == show_on_top || *id == open_on_top {
        MenuCommand::ShowOnTop
    } else if *id == hide {
        MenuCommand::Hide
    } else if *id == quit {
        MenuCommand::Quit
    } else {
        MenuCommand::Other
    }
}

/// The controller's transition table.
///
/// * Tray left click: show-and-focus a hidden window, hide a focused one,
///   focus a visible but unfocused one.
/// * Menu: the selected command's action; unrecognized entries are suppressed.
/// * Close request: hide, never destroy.
/// * Focus change: hide on blur only when configured; otherwise no action.
pub open spec fn handle_spec(
    event: UiEvent,
    flags: WindowFlags,
    config: VisibilityConfig,
) -> VisibilityAction {
    match event {
        UiEvent::TrayLeftClick => if !flags.visible {
            VisibilityAction::ShowFocused
        } else if flags.focused {
            VisibilityAction::Hide
        } else {
            VisibilityAction::Focus
        },
        UiEvent::MenuSelect(cmd) => match cmd {
            MenuCommand::Show => VisibilityAction::ShowFocused,
            MenuCommand::ShowOnTop => VisibilityAction::ShowAlwaysOnTop,
            MenuCommand::Hide => VisibilityAction::Hide,
            MenuCommand::Quit => VisibilityAction::Exit,
            MenuCommand::Other => VisibilityAction::Suppress,
        },
        UiEvent::WindowCloseRequested => VisibilityAction::Hide,
        UiEvent::WindowFocusChanged(focused) => if !focused && config.hide_on_blur {
            VisibilityAction::Hide
        } else {
            VisibilityAction::Suppress
        },
    }
}

/// Decides the next visibility action from one UI event and the window's
/// current flags. Pure: the result depends on the arguments alone, so
/// repeated or reordered delivery of events cannot leave hidden state behind.
pub fn handle(event: UiEvent, flags: WindowFlags, config: VisibilityConfig) -> (action:
    VisibilityAction)
    ensures
        action == handle_spec(event, flags, config),
{
    match event {
        UiEvent::TrayLeftClick => {
            if !flags.visible {
                VisibilityAction::ShowFocused
            } else if flags.focused {
                VisibilityAction::Hide
            } else {
                VisibilityAction::Focus
            }
        },
        UiEvent::MenuSelect(cmd) => {
            match cmd {
                MenuCommand::Show => VisibilityAction::ShowFocused,
                MenuCommand::ShowOnTop => VisibilityAction::ShowAlwaysOnTop,
                MenuCommand::Hide => VisibilityAction::Hide,
                MenuCommand::Quit => VisibilityAction::Exit,
                MenuCommand::Other => VisibilityAction::Suppress,
            }
        },
        UiEvent::WindowCloseRequested => VisibilityAction::Hide,
        UiEvent::WindowFocusChanged(focused) => {
            if !focused && config.hide_on_blur {
                VisibilityAction::Hide
            } else {
                VisibilityAction::Suppress
            }
        },
    }
}

/// A close request is always answered with `Hide`: whatever the window's
/// flags and whatever the configuration, the window is hidden, never
/// destroyed.
pub proof fn lemma_close_requested_only_hides(flags: WindowFlags, config: VisibilityConfig)
    ensures
        handle_spec(UiEvent::WindowCloseRequested, flags, config) == VisibilityAction::Hide,
{
}

/// `Exit` is issued for the quit menu entry and for nothing else: no other
/// event, under any flags or configuration, can end the application.
pub proof fn lemma_exit_only_from_quit(event: UiEvent, flags: WindowFlags, config: VisibilityConfig)
    ensures
        handle_spec(event, flags, config) == VisibilityAction::Exit <==> event
            == UiEvent::MenuSelect(MenuCommand::Quit),
{
}

} // verus!
