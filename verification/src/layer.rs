//! What the compositor's layer shell is asked to do with a window, and the
//! order in which a job on the user-interface thread goes about it.

use vstd::prelude::*;
use crate::error::{CommandError, CommandErrorView, Failure};
use crate::platform::Platform;
use crate::window::WindowRole;

verus! {

/// A screen edge.
#[derive(Clone, Copy, Debug, PartialEq, Eq, Structural)]
pub enum Edge {
    Top,
    Bottom,
    Left,
    Right,
}

/// The stacking layer of a surface, lowest first.
#[derive(Clone, Copy, Debug, PartialEq, Eq, Structural)]
pub enum Layer {
    Background,
    Bottom,
    Top,
    Overlay,
}

/// How a layer surface takes part in keyboard focus.
#[derive(Clone, Copy, Debug, PartialEq, Eq, Structural)]
pub enum KeyboardMode {
    /// The surface never receives keyboard input.
    Off,
    /// The surface holds the keyboard while it is mapped.
    Exclusive,
    /// The surface receives keyboard input when the user gives it focus.
    OnDemand,
}

impl KeyboardMode {
    /// The mode of a panel that is, or is not, meant to be typed into.
    pub open spec fn spec_for_interactive(interactive: bool) -> KeyboardMode {
        if interactive {
            KeyboardMode::OnDemand
        } else {
            KeyboardMode::Off
        }
    }

    /// The mode of a panel that is, or is not, meant to be typed into.
    #[verifier::when_used_as_spec(spec_for_interactive)]
    pub fn for_interactive(interactive: bool) -> (mode: KeyboardMode)
        ensures
            mode == Self::spec_for_interactive(interactive),
    {
        if interactive {
            KeyboardMode::OnDemand
        } else {
            KeyboardMode::Off
        }
    }
}

/// Whether a surface is attached to an edge, and how far from it.
#[derive(Clone, Copy, Debug, PartialEq, Eq, Structural)]
pub struct Anchoring {
    pub anchored: bool,
    pub margin: i32,
}

/// Distance of the panel from the edges it is anchored to.
pub const PANEL_MARGIN: i32 = 24;

/// Everything a window is told when it becomes a layer surface.
#[derive(Clone, Copy, Debug, PartialEq, Eq, Structural)]
pub struct LayerShellConfig {
    /// The window; its namespace names the surface.
    pub role: WindowRole,
    pub layer: Layer,
    pub keyboard_mode: KeyboardMode,
    pub exclusive_zone: i32,
    pub top: Anchoring,
    pub bottom: Anchoring,
    pub left: Anchoring,
    pub right: Anchoring,
}

impl LayerShellConfig {
    /// How the surface relates to `edge`.
    pub open spec fn spec_edge(self, edge: Edge) -> Anchoring {
        match edge {
            Edge::Top => self.top,
            Edge::Bottom => self.bottom,
            Edge::Left => self.left,
            Edge::Right => self.right,
        }
    }

    /// How the surface relates to `edge`.
    #[verifier::when_used_as_spec(spec_edge)]
    pub fn edge(self, edge: Edge) -> (anchoring: Anchoring)
        ensures
            anchoring == self.spec_edge(edge),
    {
        match edge {
            Edge::Top => self.top,
            Edge::Bottom => self.bottom,
            Edge::Left => self.left,
            Edge::Right => self.right,
        }
    }

    /// How the window of the given role relates to `edge`: the overlay is
    /// stretched between all four edges; the panel sits in the top-left
    /// corner, [`PANEL_MARGIN`] away from both.
    pub open spec fn anchoring_for(role: WindowRole, edge: Edge) -> Anchoring {
        let corner = edge == Edge::Top || edge == Edge::Left;
        match role {
            WindowRole::Overlay => Anchoring { anchored: true, margin: 0 },
            WindowRole::Panel => Anchoring {
                anchored: corner,
                margin: if corner {
                    PANEL_MARGIN
                } else {
                    0
                },
            },
        }
    }

    /// The layer surface of the window of the given role: on the overlay
    /// layer, without keyboard input, reserving no space.
    pub open spec fn spec_for_role(role: WindowRole) -> LayerShellConfig {
        LayerShellConfig {
            role,
            layer: Layer::Overlay,
            keyboard_mode: KeyboardMode::Off,
            exclusive_zone: 0,
            top: Self::anchoring_for(role, Edge::Top),
            bottom: Self::anchoring_for(role, Edge::Bottom),
            left: Self::anchoring_for(role, Edge::Left),
            right: Self::anchoring_for(role, Edge::Right),
        }
    }

    /// The layer surface of the window of the given role.
    #[verifier::when_used_as_spec(spec_for_role)]
    pub fn for_role(role: WindowRole) -> (config: LayerShellConfig)
        ensures
            config == Self::spec_for_role(role),
    {
        let attached = Anchoring { anchored: true, margin: 0 };
        let detached = Anchoring { anchored: false, margin: 0 };
        let inset = Anchoring { anchored: true, margin: PANEL_MARGIN };
        match role {
            WindowRole::Overlay => LayerShellConfig {
                role,
                layer: Layer::Overlay,
                keyboard_mode: KeyboardMode::Off,
                exclusive_zone: 0,
                top: attached,
                bottom: attached,
                left: attached,
                right: attached,
            },
            WindowRole::Panel => LayerShellConfig {
                role,
                layer: Layer::Overlay,
                keyboard_mode: KeyboardMode::Off,
                exclusive_zone: 0,
                top: inset,
                bottom: detached,
                left: inset,
                right: detached,
            },
        }
    }
}

/// The part of the overlay that should take pointer input, as asked for.
#[derive(Clone, Copy, Debug, PartialEq, Eq, Structural)]
pub struct OverlayInputRegion {
    pub x: i32,
    pub y: i32,
    pub width: i32,
    pub height: i32,
}

/// A rectangle of the overlay, as the window system is given it.
#[derive(Clone, Copy, Debug, PartialEq, Eq, Structural)]
pub struct InputRect {
    pub x: i32,
    pub y: i32,
    pub width: i32,
    pub height: i32,
}

impl InputRect {
    /// Neither width nor height is negative.
    pub open spec fn well_formed(self) -> bool {
        self.width >= 0 && self.height >= 0
    }
}

impl OverlayInputRegion {
    /// The region with a negative width or height raised to zero.
    pub open spec fn spec_clamped(self) -> InputRect {
        InputRect {
            x: self.x,
            y: self.y,
            width: if self.width < 0 {
                0
            } else {
                self.width
            },
            height: if self.height < 0 {
                0
            } else {
                self.height
            },
        }
    }

    /// The region with a negative width or height raised to zero.
    #[verifier::when_used_as_spec(spec_clamped)]
    pub fn clamped(self) -> (rect: InputRect)
        ensures
            rect == self.spec_clamped(),
            rect.well_formed(),
    {
        let width: i32 = if self.width < 0 { 0 } else { self.width };
        let height: i32 = if self.height < 0 { 0 } else { self.height };
        InputRect { x: self.x, y: self.y, width, height }
    }
}

/// What a job does to the area of a window that takes pointer input.
#[derive(Clone, Copy, Debug, PartialEq, Eq, Structural)]
pub enum RegionChange {
    /// Leave it as it is.
    Keep,
    /// Make it empty: the whole window lets the pointer through.
    Clear,
    /// Make it empty, then make it this rectangle.
    Replace(InputRect),
}

/// One piece of work on the user-interface thread: what to check first, and
/// what to tell the window's layer surface.
#[derive(Clone, Copy, Debug, PartialEq, Eq, Structural)]
pub struct LayerJob {
    /// Ask first whether the compositor supports the layer shell, and do
    /// nothing if it does not.
    pub probe: bool,
    /// What to report if the window's native handle cannot be had.
    pub window_failure: Failure,
    /// Turn the window into a layer surface with this configuration.
    pub setup: Option<LayerShellConfig>,
    /// Switch the surface to this keyboard mode.
    pub keyboard_mode: Option<KeyboardMode>,
    pub input_region: RegionChange,
}

/// What happened last in a job.
#[derive(Debug, PartialEq, Eq)]
pub enum JobEvent {
    /// Nothing yet: the job has just been taken up.
    Started,
    /// The compositor was asked; this is whether it supports the layer shell.
    Probed(bool),
    /// The window's native handle is at hand.
    WindowAcquired,
    /// The window's native handle could not be had, for the reason given.
    WindowFailed(String),
    /// The job's settings were applied to the window.
    Applied,
}

/// A [`JobEvent`] with its message as a character sequence.
pub enum JobEventView {
    Started,
    Probed(bool),
    WindowAcquired,
    WindowFailed(Seq<char>),
    Applied,
}

impl View for JobEvent {
    type V = JobEventView;

    open spec fn view(&self) -> JobEventView {
        match self {
            JobEvent::Started => JobEventView::Started,
            JobEvent::Probed(supported) => JobEventView::Probed(*supported),
            JobEvent::WindowAcquired => JobEventView::WindowAcquired,
            JobEvent::WindowFailed(message) => JobEventView::WindowFailed(message@),
            JobEvent::Applied => JobEventView::Applied,
        }
    }
}

/// What a job does next.
#[derive(Debug, PartialEq, Eq)]
pub enum JobAction {
    /// Ask the compositor whether it supports the layer shell.
    Probe,
    /// Get hold of the window's native handle.
    AcquireWindow,
    /// Apply the job's settings to the window: the setup, then the keyboard
    /// mode, then the input region.
    Apply,
    /// Stop. `Ok` tells whether the settings were applied.
    Finish(Result<bool, CommandError>),
}

/// A [`JobAction`] with its error as character sequences.
pub enum JobActionView {
    Probe,
    AcquireWindow,
    Apply,
    Finish(Result<bool, CommandErrorView>),
}

impl View for JobAction {
    type V = JobActionView;

    open spec fn view(&self) -> JobActionView {
        match self {
            JobAction::Probe => JobActionView::Probe,
            JobAction::AcquireWindow => JobActionView::AcquireWindow,
            JobAction::Apply => JobActionView::Apply,
            JobAction::Finish(Ok(applied)) => JobActionView::Finish(Ok(*applied)),
            JobAction::Finish(Err(error)) => JobActionView::Finish(Err(error@)),
        }
    }
}

impl LayerJob {
    /// What follows `event`.
    ///
    /// A job that probes ends without applying anything when the compositor
    /// has no layer shell. A window whose handle cannot be had ends the job
    /// with [`LayerJob::window_failure`] and the reason. Otherwise the
    /// settings are applied and the job ends having applied them.
    pub open spec fn spec_next(self, event: JobEventView) -> JobActionView {
        match event {
            JobEventView::Started => if self.probe {
                JobActionView::Probe
            } else {
                JobActionView::AcquireWindow
            },
            JobEventView::Probed(supported) => if supported {
                JobActionView::AcquireWindow
            } else {
                JobActionView::Finish(Ok(false))
            },
            JobEventView::WindowAcquired => JobActionView::Apply,
            JobEventView::WindowFailed(message) => JobActionView::Finish(
                Err(self.window_failure.error_view(message)),
            ),
            JobEventView::Applied => JobActionView::Finish(Ok(true)),
        }
    }

    /// What follows `event`.
    pub fn next(&self, event: JobEvent) -> (action: JobAction)
        ensures
            action@ == self.spec_next(event@),
    {
        match event {
            JobEvent::Started => {
                if self.probe {
                    JobAction::Probe
                } else {
                    JobAction::AcquireWindow
                }
            },
            JobEvent::Probed(supported) => {
                if supported {
                    JobAction::AcquireWindow
                } else {
                    JobAction::Finish(Ok(false))
                }
            },
            JobEvent::WindowAcquired => JobAction::Apply,
            JobEvent::WindowFailed(message) => JobAction::Finish(
                Err(self.window_failure.error(message)),
            ),
            JobEvent::Applied => JobAction::Finish(Ok(true)),
        }
    }
}

impl LayerJob {
    /// The job that switches the panel's surface between taking keyboard
    /// input on demand and taking none. It leaves the window alone where the
    /// compositor has no layer shell.
    pub open spec fn spec_keyboard(interactive: bool) -> LayerJob {
        LayerJob {
            probe: true,
            window_failure: Failure::OverlayWindowGtkWindow,
            setup: None,
            keyboard_mode: Some(KeyboardMode::spec_for_interactive(interactive)),
            input_region: RegionChange::Keep,
        }
    }

    /// The job that switches the panel's surface between taking keyboard
    /// input on demand and taking none.
    #[verifier::when_used_as_spec(spec_keyboard)]
    pub fn keyboard(interactive: bool) -> (job: LayerJob)
        ensures
            job == Self::spec_keyboard(interactive),
    {
        LayerJob {
            probe: true,
            window_failure: Failure::OverlayWindowGtkWindow,
            setup: None,
            keyboard_mode: Some(KeyboardMode::for_interactive(interactive)),
            input_region: RegionChange::Keep,
        }
    }

    /// The job that makes `region`, clamped, the only part of the overlay
    /// that takes pointer input. It does not ask the compositor first.
    pub open spec fn spec_input_region(region: OverlayInputRegion) -> LayerJob {
        LayerJob {
            probe: false,
            window_failure: Failure::OverlayWindowGtkWindow,
            setup: None,
            keyboard_mode: None,
            input_region: RegionChange::Replace(region.spec_clamped()),
        }
    }

    /// The job that makes `region`, clamped, the only part of the overlay
    /// that takes pointer input.
    #[verifier::when_used_as_spec(spec_input_region)]
    pub fn input_region(region: OverlayInputRegion) -> (job: LayerJob)
        ensures
            job == Self::spec_input_region(region),
            job.input_region matches RegionChange::Replace(rect) && rect.well_formed(),
    {
        LayerJob {
            probe: false,
            window_failure: Failure::OverlayWindowGtkWindow,
            setup: None,
            keyboard_mode: None,
            input_region: RegionChange::Replace(region.clamped()),
        }
    }
}

/// The job that makes the overlay window a layer surface, where the platform
/// has a layer shell: the surface is set up and its input region emptied, so
/// that the pointer passes through all of it.
pub open spec fn spec_configure_overlay_layer_shell(platform: Platform) -> Option<LayerJob> {
    match platform {
        Platform::Native => None,
        Platform::LayerShell => Some(
            LayerJob {
                probe: true,
                window_failure: Failure::OverlayWindowGtkWindow,
                setup: Some(LayerShellConfig::spec_for_role(WindowRole::Overlay)),
                keyboard_mode: None,
                input_region: RegionChange::Clear,
            },
        ),
    }
}

/// The job that makes the overlay window a layer surface; `None` where the
/// platform has no layer shell and there is nothing to do.
#[verifier::when_used_as_spec(spec_configure_overlay_layer_shell)]
pub fn configure_overlay_layer_shell(platform: Platform) -> (job: Option<LayerJob>)
    ensures
        job == spec_configure_overlay_layer_shell(platform),
{
    if platform.has_layer_shell() {
        Some(
            LayerJob {
                probe: true,
                window_failure: Failure::OverlayWindowGtkWindow,
                setup: Some(LayerShellConfig::for_role(WindowRole::Overlay)),
                keyboard_mode: None,
                input_region: RegionChange::Clear,
            },
        )
    } else {
        None
    }
}

/// The job that makes the panel window a layer surface, where the platform
/// has a layer shell. The panel keeps its input region.
pub open spec fn spec_configure_overlay_panel_layer_shell(platform: Platform) -> Option<LayerJob> {
    match platform {
        Platform::Native => None,
        Platform::LayerShell => Some(
            LayerJob {
                probe: true,
                window_failure: Failure::OverlayPanelWindowGtkWindow,
                setup: Some(LayerShellConfig::spec_for_role(WindowRole::Panel)),
                keyboard_mode: None,
                input_region: RegionChange::Keep,
            },
        ),
    }
}

/// The job that makes the panel window a layer surface; `None` where the
/// platform has no layer shell and there is nothing to do.
#[verifier::when_used_as_spec(spec_configure_overlay_panel_layer_shell)]
pub fn configure_overlay_panel_layer_shell(platform: Platform) -> (job: Option<LayerJob>)
    ensures
        job == spec_configure_overlay_panel_layer_shell(platform),
{
    if platform.has_layer_shell() {
        Some(
            LayerJob {
                probe: true,
                window_failure: Failure::OverlayPanelWindowGtkWindow,
                setup: Some(LayerShellConfig::for_role(WindowRole::Panel)),
                keyboard_mode: None,
                input_region: RegionChange::Keep,
            },
        )
    } else {
        None
    }
}

} // verus!
