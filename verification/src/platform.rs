//! The two families of platforms the overlay runs on.

use vstd::prelude::*;

verus! {

/// How a platform makes a window an overlay.
#[derive(Clone, Copy, Debug, PartialEq, Eq, Structural)]
pub enum Platform {
    /// The compositor offers a layer-shell protocol; overlay windows are
    /// configured through it, on the thread that owns the user interface.
    LayerShell,
    /// The window manager's own flags are all there is.
    Native,
}

/// Whether `os` names an operating system of the layer-shell family.
pub open spec fn is_layer_shell_os(os: Seq<char>) -> bool {
    ||| os == "linux"@
    ||| os == "dragonfly"@
    ||| os == "freebsd"@
    ||| os == "netbsd"@
    ||| os == "openbsd"@
}

fn same_text(a: &str, b: &str) -> (same: bool)
    ensures
        same == (a@ == b@),
{
    let left = String::from_str(a);
    let right = String::from_str(b);
    left == right
}

impl Platform {
    /// The platform family of the operating system called `os`, by the name
    /// the compiler's target gives it.
    pub fn for_target_os(os: &str) -> (platform: Platform)
        ensures
            platform == if is_layer_shell_os(os@) {
                Platform::LayerShell
            } else {
                Platform::Native
            },
    {
        if same_text(os, "linux") || same_text(os, "dragonfly") || same_text(os, "freebsd")
            || same_text(os, "netbsd") || same_text(os, "openbsd") {
            Platform::LayerShell
        } else {
            Platform::Native
        }
    }

    /// Whether overlay windows are configured through the layer shell.
    pub fn has_layer_shell(self) -> (yes: bool)
        ensures
            yes == (self == Platform::LayerShell),
    {
        match self {
            Platform::LayerShell => true,
            Platform::Native => false,
        }
    }
}

} // verus!
