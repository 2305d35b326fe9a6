//! The error a command reports: a short machine-readable code and the
//! message of whatever caused it.

use vstd::prelude::*;

verus! {

/// Every way an operation on the overlay windows can fail.
///
/// Commands on the panel window share several codes with the main overlay
/// window; the variant names follow the codes, not the window.
#[derive(Clone, Copy, Debug, PartialEq, Eq, Structural)]
pub enum Failure {
    OverlayWindowCreate,
    OverlayWindowGtkWindow,
    OverlayWindowMainThread,
    OverlayWindowMainThreadChannel,
    OverlayWindowShow,
    OverlayWindowHide,
    OverlayWindowAlwaysOnTop,
    OverlayWindowSticky,
    OverlayWindowSetFocusable,
    OverlayWindowSetClickThrough,
    OverlayWindowFocus,
    OverlayWindowNotFound,
    OverlayPanelWindowCreate,
    OverlayPanelWindowGtkWindow,
    OverlayPanelWindowMainThread,
    OverlayPanelWindowMainThreadChannel,
    OverlayPanelWindowShow,
    OverlayPanelWindowHide,
    OverlayPanelWindowSetSize,
}

impl Failure {
    /// The code of this failure, as a character sequence.
    pub open spec fn code_text(self) -> Seq<char> {
        match self {
            Failure::OverlayWindowCreate => "overlay_window_create_failed"@,
            Failure::OverlayWindowGtkWindow => "overlay_window_gtk_window_failed"@,
            Failure::OverlayWindowMainThread => "overlay_window_main_thread_failed"@,
            Failure::OverlayWindowMainThreadChannel => "overlay_window_main_thread_channel_failed"@,
            Failure::OverlayWindowShow => "overlay_window_show_failed"@,
            Failure::OverlayWindowHide => "overlay_window_hide_failed"@,
            Failure::OverlayWindowAlwaysOnTop => "overlay_window_always_on_top_failed"@,
            Failure::OverlayWindowSticky => "overlay_window_sticky_failed"@,
            Failure::OverlayWindowSetFocusable => "overlay_window_set_focusable_failed"@,
            Failure::OverlayWindowSetClickThrough => "overlay_window_set_click_through_failed"@,
            Failure::OverlayWindowFocus => "overlay_window_focus_failed"@,
            Failure::OverlayWindowNotFound => "overlay_window_not_found"@,
            Failure::OverlayPanelWindowCreate => "overlay_panel_window_create_failed"@,
            Failure::OverlayPanelWindowGtkWindow => "overlay_panel_window_gtk_window_failed"@,
            Failure::OverlayPanelWindowMainThread => "overlay_panel_window_main_thread_failed"@,
            Failure::OverlayPanelWindowMainThreadChannel => "overlay_panel_window_main_thread_channel_failed"@,
            Failure::OverlayPanelWindowShow => "overlay_panel_window_show_failed"@,
            Failure::OverlayPanelWindowHide => "overlay_panel_window_hide_failed"@,
            Failure::OverlayPanelWindowSetSize => "overlay_panel_window_set_size_failed"@,
        }
    }

    /// The code of this failure.
    pub fn code(self) -> (code: &'static str)
        ensures
            code@ == self.code_text(),
    {
        match self {
            Failure::OverlayWindowCreate => "overlay_window_create_failed",
            Failure::OverlayWindowGtkWindow => "overlay_window_gtk_window_failed",
            Failure::OverlayWindowMainThread => "overlay_window_main_thread_failed",
            Failure::OverlayWindowMainThreadChannel => "overlay_window_main_thread_channel_failed",
            Failure::OverlayWindowShow => "overlay_window_show_failed",
            Failure::OverlayWindowHide => "overlay_window_hide_failed",
            Failure::OverlayWindowAlwaysOnTop => "overlay_window_always_on_top_failed",
            Failure::OverlayWindowSticky => "overlay_window_sticky_failed",
            Failure::OverlayWindowSetFocusable => "overlay_window_set_focusable_failed",
            Failure::OverlayWindowSetClickThrough => "overlay_window_set_click_through_failed",
            Failure::OverlayWindowFocus => "overlay_window_focus_failed",
            Failure::OverlayWindowNotFound => "overlay_window_not_found",
            Failure::OverlayPanelWindowCreate => "overlay_panel_window_create_failed",
            Failure::OverlayPanelWindowGtkWindow => "overlay_panel_window_gtk_window_failed",
            Failure::OverlayPanelWindowMainThread => "overlay_panel_window_main_thread_failed",
            Failure::OverlayPanelWindowMainThreadChannel => "overlay_panel_window_main_thread_channel_failed",
            Failure::OverlayPanelWindowShow => "overlay_panel_window_show_failed",
            Failure::OverlayPanelWindowHide => "overlay_panel_window_hide_failed",
            Failure::OverlayPanelWindowSetSize => "overlay_panel_window_set_size_failed",
        }
    }

    /// The error that reports this failure with the given cause.
    pub open spec fn error_view(self, message: Seq<char>) -> CommandErrorView {
        CommandErrorView { kind: self.code_text(), message }
    }

    /// The error that reports this failure with the given cause.
    pub fn error(self, message: String) -> (error: CommandError)
        ensures
            error@ == self.error_view(message@),
    {
        command_error(self.code(), message)
    }
}

/// No two failures share a code: the code alone tells which operation failed.
pub proof fn lemma_codes_are_distinct(a: Failure, b: Failure)
    ensures
        a.code_text() == b.code_text() ==> a == b,
{
    reveal_strlit("overlay_window_create_failed");
    reveal_strlit("overlay_window_gtk_window_failed");
    reveal_strlit("overlay_window_main_thread_failed");
    reveal_strlit("overlay_window_main_thread_channel_failed");
    reveal_strlit("overlay_window_show_failed");
    reveal_strlit("overlay_window_hide_failed");
    reveal_strlit("overlay_window_always_on_top_failed");
    reveal_strlit("overlay_window_sticky_failed");
    reveal_strlit("overlay_window_set_focusable_failed");
    reveal_strlit("overlay_window_set_click_through_failed");
    reveal_strlit("overlay_window_focus_failed");
    reveal_strlit("overlay_window_not_found");
    reveal_strlit("overlay_panel_window_create_failed");
    reveal_strlit("overlay_panel_window_gtk_window_failed");
    reveal_strlit("overlay_panel_window_main_thread_failed");
    reveal_strlit("overlay_panel_window_main_thread_channel_failed");
    reveal_strlit("overlay_panel_window_show_failed");
    reveal_strlit("overlay_panel_window_hide_failed");
    reveal_strlit("overlay_panel_window_set_size_failed");
    // The length and two of the characters already tell the codes apart.
    let left = a.code_text();
    let right = b.code_text();
    assert(left.len() == right.len() && left[15] == right[15] && left[21] == right[21] ==> a == b);
}

/// What a failed command hands back to its caller.
#[derive(Debug, PartialEq, Eq)]
pub struct CommandError {
    /// Short code that names the operation that failed.
    pub kind: String,
    /// The underlying cause, in the words of whoever reported it.
    pub message: String,
}

/// A [`CommandError`] seen as two character sequences.
pub struct CommandErrorView {
    pub kind: Seq<char>,
    pub message: Seq<char>,
}

impl View for CommandError {
    type V = CommandErrorView;

    open spec fn view(&self) -> CommandErrorView {
        CommandErrorView { kind: self.kind@, message: self.message@ }
    }
}

impl Clone for CommandError {
    fn clone(&self) -> (copy: CommandError)
        ensures
            copy@ == self@,
    {
        CommandError { kind: self.kind.clone(), message: self.message.clone() }
    }
}

/// The message of a failure whose only cause is that the overlay window was
/// never created.
pub open spec fn missing_window_text() -> Seq<char> {
    "overlay window not created"@
}

/// The message of a failure whose only cause is that the overlay window was
/// never created.
pub fn missing_window_message() -> (message: String)
    ensures
        message@ == missing_window_text(),
{
    String::from_str("overlay window not created")
}

/// Tags `message` with `kind`.
pub fn command_error(kind: &str, message: String) -> (error: CommandError)
    ensures
        error@ == (CommandErrorView { kind: kind@, message: message@ }),
{
    CommandError { kind: kind.to_string(), message }
}

} // verus!
