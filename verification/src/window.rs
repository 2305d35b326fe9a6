//! The two overlay windows, the options they are created with, and the
//! calls the window system is asked to make on them.

use vstd::prelude::*;

verus! {

/// Which of the two overlay windows.
#[derive(Clone, Copy, Debug, PartialEq, Eq, Structural)]
pub enum WindowRole {
    /// The full-screen, click-through surface.
    Overlay,
    /// The small interactive panel in the top-left corner.
    Panel,
}

impl WindowRole {
    /// The label the window is registered under.
    pub open spec fn label_text(self) -> Seq<char> {
        match self {
            WindowRole::Overlay => "overlay"@,
            WindowRole::Panel => "overlay_panel"@,
        }
    }

    /// The label the window is registered under.
    pub fn label(self) -> (label: &'static str)
        ensures
            label@ == self.label_text(),
    {
        match self {
            WindowRole::Overlay => "overlay",
            WindowRole::Panel => "overlay_panel",
        }
    }

    /// The application page the window shows.
    pub open spec fn url_text(self) -> Seq<char> {
        match self {
            WindowRole::Overlay => "index.html?view=overlay"@,
            WindowRole::Panel => "index.html?view=overlay-panel"@,
        }
    }

    /// The application page the window shows.
    pub fn url(self) -> (url: &'static str)
        ensures
            url@ == self.url_text(),
    {
        match self {
            WindowRole::Overlay => "index.html?view=overlay",
            WindowRole::Panel => "index.html?view=overlay-panel",
        }
    }

    /// The name the window's layer surface goes by.
    pub open spec fn namespace_text(self) -> Seq<char> {
        match self {
            WindowRole::Overlay => "poe-tauri-overlay"@,
            WindowRole::Panel => "poe-tauri-overlay-panel"@,
        }
    }

    /// The name the window's layer surface goes by.
    pub fn namespace(self) -> (namespace: &'static str)
        ensures
            namespace@ == self.namespace_text(),
    {
        match self {
            WindowRole::Overlay => "poe-tauri-overlay",
            WindowRole::Panel => "poe-tauri-overlay-panel",
        }
    }
}

/// A window size in logical pixels.
#[derive(Clone, Copy, Debug, PartialEq, Eq, Structural)]
pub struct LogicalSize {
    pub width: u32,
    pub height: u32,
}

/// The display flags a window is created with.
#[derive(Clone, Copy, Debug, PartialEq, Eq, Structural)]
pub struct WindowOptions {
    pub role: WindowRole,
    pub transparent: bool,
    pub decorations: bool,
    pub always_on_top: bool,
    pub visible_on_all_workspaces: bool,
    pub skip_taskbar: bool,
    pub focusable: bool,
    pub visible: bool,
    pub resizable: bool,
    pub maximized: bool,
    /// Size of the window's content, where one is asked for.
    pub inner_size: Option<LogicalSize>,
}

impl WindowOptions {
    /// The options the window of the given role is created with.
    ///
    /// Both windows are transparent, undecorated, above all others, on every
    /// workspace, off the taskbar, and hidden until shown. The overlay covers
    /// the screen and never takes focus; the panel starts as a ten-pixel
    /// square of fixed size that may take focus.
    pub open spec fn spec_for_role(role: WindowRole) -> WindowOptions {
        WindowOptions {
            role,
            transparent: true,
            decorations: false,
            always_on_top: true,
            visible_on_all_workspaces: true,
            skip_taskbar: true,
            focusable: role == WindowRole::Panel,
            visible: false,
            resizable: role == WindowRole::Overlay,
            maximized: role == WindowRole::Overlay,
            inner_size: match role {
                WindowRole::Overlay => None,
                WindowRole::Panel => Some(LogicalSize { width: 10, height: 10 }),
            },
        }
    }

    /// The options the window of the given role is created with.
    #[verifier::when_used_as_spec(spec_for_role)]
    pub fn for_role(role: WindowRole) -> (options: WindowOptions)
        ensures
            options == Self::spec_for_role(role),
    {
        match role {
            WindowRole::Overlay => WindowOptions {
                role,
                transparent: true,
                decorations: false,
                always_on_top: true,
                visible_on_all_workspaces: true,
                skip_taskbar: true,
                focusable: false,
                visible: false,
                resizable: true,
                maximized: true,
                inner_size: None,
            },
            WindowRole::Panel => WindowOptions {
                role,
                transparent: true,
                decorations: false,
                always_on_top: true,
                visible_on_all_workspaces: true,
                skip_taskbar: true,
                focusable: true,
                visible: false,
                resizable: false,
                maximized: false,
                inner_size: Some(LogicalSize { width: 10, height: 10 }),
            },
        }
    }
}

/// One request to the window system that may fail.
#[derive(Clone, Copy, Debug, PartialEq, Eq, Structural)]
pub enum WindowCall {
    /// Create the window with these options.
    Build(WindowOptions),
    Show(WindowRole),
    Hide(WindowRole),
    SetAlwaysOnTop(WindowRole, bool),
    SetVisibleOnAllWorkspaces(WindowRole, bool),
    SetFocusable(WindowRole, bool),
    /// Let pointer events pass through the window (`true`) or not.
    SetIgnoreCursorEvents(WindowRole, bool),
    SetFocus(WindowRole),
    /// Give the window the size its caller asked for.
    Resize(WindowRole),
}

impl WindowCall {
    /// The window the call is made on.
    pub open spec fn spec_role(self) -> WindowRole {
        match self {
            WindowCall::Build(options) => options.role,
            WindowCall::Show(role) => role,
            WindowCall::Hide(role) => role,
            WindowCall::SetAlwaysOnTop(role, _) => role,
            WindowCall::SetVisibleOnAllWorkspaces(role, _) => role,
            WindowCall::SetFocusable(role, _) => role,
            WindowCall::SetIgnoreCursorEvents(role, _) => role,
            WindowCall::SetFocus(role) => role,
            WindowCall::Resize(role) => role,
        }
    }

    /// The window the call is made on.
    #[verifier::when_used_as_spec(spec_role)]
    pub fn role(self) -> (role: WindowRole)
        ensures
            role == self.spec_role(),
    {
        match self {
            WindowCall::Build(options) => options.role,
            WindowCall::Show(role) => role,
            WindowCall::Hide(role) => role,
            WindowCall::SetAlwaysOnTop(role, _) => role,
            WindowCall::SetVisibleOnAllWorkspaces(role, _) => role,
            WindowCall::SetFocusable(role, _) => role,
            WindowCall::SetIgnoreCursorEvents(role, _) => role,
            WindowCall::SetFocus(role) => role,
            WindowCall::Resize(role) => role,
        }
    }
}

} // verus!
