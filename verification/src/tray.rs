//! Tray session control.
//!
//! A `TraySession` owns the tray menu tree and the visibility flag of the main
//! window. Operating-system input (menu activations, icon clicks) is mapped to
//! `ShellCommand`s, and applying a command yields the `TrayEffect` that the
//! surrounding application must perform (show, hide, exit, or forward to the
//! UI layer). Building the icon itself is an operating-system call; its
//! outcome is handed to `initialize` as a plain boolean.

use vstd::prelude::*;

verus! {

/// What activating a menu item means.
#[derive(Debug, Clone, Copy, PartialEq, Eq, Structural)]
pub enum MenuAction {
    Show,
    Hide,
    Quit,
    Custom,
}

/// One entry of the tray menu. Ids are unique within a session.
#[derive(Debug, Clone, PartialEq, Eq)]
pub struct TrayMenuItem {
    pub id: String,
    pub label: String,
    pub action: MenuAction,
}

/// Visibility of the main window, as tracked by the tray session.
#[derive(Debug, Clone, Copy, PartialEq, Eq, Structural)]
pub enum Visibility {
    Hidden,
    Visible,
}

/// A shell command derived from tray input. `Custom` carries the id of the
/// activated menu item.
#[derive(Debug, Clone, PartialEq, Eq)]
pub enum ShellCommand {
    Show,
    Hide,
    Quit,
    Custom(String),
}

/// Why tray setup failed. Setup failure is non-fatal to the host process: the
/// application logs it and continues without a tray.
#[derive(Debug, Clone, Copy, PartialEq, Eq, Structural)]
pub enum SetupError {
    IconCreationFailed,
    MenuBuildFailed,
}

/// A mouse button reported by a tray icon event.
#[derive(Debug, Clone, Copy, PartialEq, Eq, Structural)]
pub enum TrayButton {
    Primary,
    Secondary,
    Middle,
}

/// Whether the button was pressed down or released.
#[derive(Debug, Clone, Copy, PartialEq, Eq, Structural)]
pub enum TrayButtonState {
    Pressed,
    Released,
}

/// Operating-system input on the tray icon itself.
#[derive(Debug, Clone, Copy, PartialEq, Eq, Structural)]
pub enum TrayIconInput {
    Click { button: TrayButton, state: TrayButtonState },
    Enter,
    Move,
    Leave,
}

/// The operation the surrounding application must perform after a command was
/// applied to the session.
#[derive(Debug, Clone, PartialEq, Eq)]
pub enum TrayEffect {
    /// Look the main window up, show it and give it focus.
    ShowWindow,
    /// Look the main window up and hide it.
    HideWindow,
    /// Terminate the process with the given exit code.
    Exit(i32),
    /// Forward a custom menu id to the UI layer; the session is unchanged.
    Forward(String),
    /// Nothing to do: the command repeated the current state.
    NoChange,
}

/// The menu ids are pairwise distinct.
pub open spec fn ids_unique(items: Seq<TrayMenuItem>) -> bool {
    forall|i: int, j: int|
        0 <= i < j < items.len() ==> items[i].id@ != items[j].id@
}

/// The action of the first item carrying `id`, if any.
pub open spec fn lookup_action(items: Seq<TrayMenuItem>, id: Seq<char>) -> Option<MenuAction>
    decreases items.len(),
{
    if items.len() == 0 {
        None
    } else if items[0].id@ == id {
        Some(items[0].action)
    } else {
        lookup_action(items.drop_first(), id)
    }
}

/// `c` is the shell command that `a`, activated through the item `id`, maps to.
pub open spec fn command_for(c: ShellCommand, a: MenuAction, id: Seq<char>) -> bool {
    match a {
        MenuAction::Show => c == ShellCommand::Show,
        MenuAction::Hide => c == ShellCommand::Hide,
        MenuAction::Quit => c == ShellCommand::Quit,
        MenuAction::Custom => c matches ShellCommand::Custom(s) && s@ == id,
    }
}

/// The command a tray icon event maps to: only a release of the primary
/// button triggers `Show`; every other button or state combination is ignored,
/// so drag gestures do not raise the window.
pub open spec fn icon_command(event: TrayIconInput) -> Option<ShellCommand> {
    if event == (TrayIconInput::Click {
        button: TrayButton::Primary,
        state: TrayButtonState::Released,
    }) {
        Some(ShellCommand::Show)
    } else {
        None
    }
}

/// The tray session: the menu tree and the visibility flag, created once at
/// startup and exclusively owned by the controller.
#[derive(Debug, Clone, PartialEq, Eq)]
pub struct TraySession {
    pub items: Vec<TrayMenuItem>,
    pub visibility: Visibility,
}

impl TraySession {
    /// Menu item ids are unique within the session.
    pub open spec fn wf(self) -> bool {
        ids_unique(self.items@)
    }

    /// Builds the session from the menu specification and the outcome of the
    /// operating-system icon creation. A duplicated menu id fails the menu
    /// build; otherwise a refused icon fails icon creation; otherwise the
    /// session starts with the main window visible.
    pub fn initialize(menu_spec: Vec<TrayMenuItem>, icon_created: bool) -> (r: Result<
        TraySession,
        SetupError,
    >)
        ensures
            r is Ok <==> (ids_unique(menu_spec@) && icon_created),
            !ids_unique(menu_spec@) ==> r == Err::<TraySession, SetupError>(
                SetupError::MenuBuildFailed,
            ),
            ids_unique(menu_spec@) && !icon_created ==> r == Err::<TraySession, SetupError>(
                SetupError::IconCreationFailed,
            ),
            r matches Ok(s) ==> s.items@ == menu_spec@ && s.visibility == Visibility::Visible
                && s.wf(),
    {
        let n = menu_spec.len();
        let mut i: usize = 0;
        while i < n
            invariant
                i <= n,
                n == menu_spec@.len(),
                forall|p: int, q: int| 0 <= p < q < menu_spec@.len() && p < i as int
                    ==> menu_spec@[p].id@ != menu_spec@[q].id@,
            decreases n - i,
        {
            let mut j: usize = i + 1;
            while j < n
                invariant
                    i < j <= n,
                    n == menu_spec@.len(),
                    forall|q: int| i < q < j as int ==> menu_spec@[i as int].id@ != menu_spec@[q].id@,
                decreases n - j,
            {
                if menu_spec[i].id == menu_spec[j].id {
                    return Err(SetupError::MenuBuildFailed);
                }
                j += 1;
            }
            i += 1;
        }
        if !icon_created {
            return Err(SetupError::IconCreationFailed);
        }
        Ok(TraySession { items: menu_spec, visibility: Visibility::Visible })
    }

    /// Maps an activated menu id to its shell command. An id that names no
    /// menu item is ignored: the result is `None`, not an error.
    pub fn handle_menu_event(&self, id: &String) -> (r: Option<ShellCommand>)
        ensures
            match lookup_action(self.items@, id@) {
                Some(a) => r matches Some(c) && command_for(c, a, id@),
                None => r is None,
            },
    {
        let n = self.items.len();
        let mut k: usize = 0;
        proof {
            assert(self.items@.skip(0) =~= self.items@);
        }
        while k < n
            invariant
                k <= n,
                n == self.items@.len(),
                lookup_action(self.items@, id@) == lookup_action(
                    self.items@.skip(k as int),
                    id@,
                ),
            decreases n - k,
        {
            let item = &self.items[k];
            proof {
                assert(self.items@.skip(k as int)[0] == self.items@[k as int]);
            }
            if item.id == *id {
                let c = match item.action {
                    MenuAction::Show => ShellCommand::Show,
                    MenuAction::Hide => ShellCommand::Hide,
                    MenuAction::Quit => ShellCommand::Quit,
                    MenuAction::Custom => ShellCommand::Custom(id.clone()),
                };
                return Some(c);
            }
            proof {
                assert(self.items@.skip(k as int).drop_first() =~= self.items@.skip(
                    k as int + 1,
                ));
            }
            k += 1;
        }
        proof {
            assert(self.items@.skip(n as int) =~= Seq::<TrayMenuItem>::empty());
        }
        None
    }

    /// Applies a shell command to the session and reports the effect the
    /// application must perform.
    ///
    /// `Show` while `Visible` and `Hide` while `Hidden` leave the state
    /// unchanged and ask for no window operation. `Quit` always yields
    /// `Exit(0)`, whatever the prior state; the process terminates and no
    /// further callbacks fire, which the application enforces by exiting
    /// immediately. A custom command never changes visibility; its id is
    /// forwarded to the UI layer.
    pub fn apply_command(&mut self, cmd: ShellCommand) -> (r: TrayEffect)
        ensures
            final(self).items@ == old(self).items@,
            final(self).wf() == old(self).wf(),
            cmd == ShellCommand::Show && old(self).visibility == Visibility::Hidden
                ==> final(self).visibility == Visibility::Visible && r == TrayEffect::ShowWindow,
            cmd == ShellCommand::Show && old(self).visibility == Visibility::Visible
                ==> *final(self) == *old(self) && r == TrayEffect::NoChange,
            cmd == ShellCommand::Hide && old(self).visibility == Visibility::Visible
                ==> final(self).visibility == Visibility::Hidden && r == TrayEffect::HideWindow,
            cmd == ShellCommand::Hide && old(self).visibility == Visibility::Hidden
                ==> *final(self) == *old(self) && r == TrayEffect::NoChange,
            cmd == ShellCommand::Quit ==> *final(self) == *old(self) && r == TrayEffect::Exit(0),
            cmd matches ShellCommand::Custom(id) ==> *final(self) == *old(self) && (
            r matches TrayEffect::Forward(s) && s@ == id@),
    {
        match cmd {
            ShellCommand::Show => {
                match self.visibility {
                    Visibility::Hidden => {
                        self.visibility = Visibility::Visible;
                        TrayEffect::ShowWindow
                    },
                    Visibility::Visible => TrayEffect::NoChange,
                }
            },
            ShellCommand::Hide => {
                match self.visibility {
                    Visibility::Visible => {
                        self.visibility = Visibility::Hidden;
                        TrayEffect::HideWindow
                    },
                    Visibility::Hidden => TrayEffect::NoChange,
                }
            },
            ShellCommand::Quit => TrayEffect::Exit(0),
            ShellCommand::Custom(id) => TrayEffect::Forward(id),
        }
    }
}

/// Maps operating-system input on the tray icon to a shell command.
pub fn handle_tray_icon_event(event: &TrayIconInput) -> (r: Option<ShellCommand>)
    ensures
        r == icon_command(*event),
{
    match event {
        TrayIconInput::Click { button: TrayButton::Primary, state: TrayButtonState::Released } => {
            Some(ShellCommand::Show)
        },
        _ => None,
    }
}

} // verus!
