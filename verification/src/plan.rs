//! The commands of the overlay, each as the list of steps it takes.
//!
//! A step is one question or request to the window system, together with
//! what the command does on each answer. Steps are taken in order; a command
//! ends with the first failure, or when its steps run out.

use vstd::prelude::*;
use crate::error::Failure;
use crate::layer::{
    configure_overlay_layer_shell, configure_overlay_panel_layer_shell, LayerJob,
    OverlayInputRegion, spec_configure_overlay_layer_shell,
    spec_configure_overlay_panel_layer_shell,
};
use crate::platform::Platform;
use crate::window::{WindowCall, WindowOptions, WindowRole};

verus! {

/// Where a command goes after a lookup.
#[derive(Clone, Copy, Debug, PartialEq, Eq, Structural)]
pub enum Branch {
    /// On to the step that follows.
    Next,
    /// Past this many of the steps that follow, or to the end of the command
    /// if fewer remain.
    Skip(usize),
    /// Nowhere: the command ends with this failure.
    Fail(Failure),
}

/// One step of a command.
#[derive(Clone, Copy, Debug, PartialEq, Eq, Structural)]
pub enum Step {
    /// Ask whether the window exists.
    Lookup { role: WindowRole, found: Branch, missing: Branch },
    /// Make a call on a window; if it fails, the command ends with `failure`
    /// and the reason the window system gave.
    Invoke { call: WindowCall, failure: Failure },
    /// Hand `job` to the user-interface thread and wait for its result. The
    /// command ends with `not_sent` if the job could not be handed over, with
    /// `no_reply` if no result came back, and with the job's own error if it
    /// returned one.
    Dispatch { role: WindowRole, job: LayerJob, not_sent: Failure, no_reply: Failure },
}

/// The steps that make sure a window exists: look it up and, only if it is
/// missing, create it and then, where there is a job for that, make it a
/// layer surface.
pub open spec fn ensure_steps(
    role: WindowRole,
    create: Failure,
    job: Option<LayerJob>,
    not_sent: Failure,
    no_reply: Failure,
) -> Seq<Step> {
    let build = Step::Invoke {
        call: WindowCall::Build(WindowOptions::spec_for_role(role)),
        failure: create,
    };
    match job {
        Some(job) => seq![
            Step::Lookup { role, found: Branch::Skip(2), missing: Branch::Next },
            build,
            Step::Dispatch { role, job, not_sent, no_reply },
        ],
        None => seq![Step::Lookup { role, found: Branch::Skip(1), missing: Branch::Next }, build],
    }
}

fn ensure_window(
    role: WindowRole,
    create: Failure,
    job: Option<LayerJob>,
    not_sent: Failure,
    no_reply: Failure,
) -> (steps: Vec<Step>)
    ensures
        steps@ == ensure_steps(role, create, job, not_sent, no_reply),
{
    let build = Step::Invoke { call: WindowCall::Build(WindowOptions::for_role(role)), failure: create };
    let mut steps: Vec<Step> = Vec::new();
    match job {
        Some(job) => {
            steps.push(Step::Lookup { role, found: Branch::Skip(2), missing: Branch::Next });
            steps.push(build);
            steps.push(Step::Dispatch { role, job, not_sent, no_reply });
        },
        None => {
            steps.push(Step::Lookup { role, found: Branch::Skip(1), missing: Branch::Next });
            steps.push(build);
        },
    }
    assert(steps@ =~= ensure_steps(role, create, job, not_sent, no_reply));
    steps
}

/// The steps that make sure the overlay window exists.
pub open spec fn spec_ensure_overlay_window(platform: Platform) -> Seq<Step> {
    ensure_steps(
        WindowRole::Overlay,
        Failure::OverlayWindowCreate,
        spec_configure_overlay_layer_shell(platform),
        Failure::OverlayWindowMainThread,
        Failure::OverlayWindowMainThreadChannel,
    )
}

/// The steps that make sure the overlay window exists.
pub fn ensure_overlay_window(platform: Platform) -> (steps: Vec<Step>)
    ensures
        steps@ == spec_ensure_overlay_window(platform),
{
    ensure_window(
        WindowRole::Overlay,
        Failure::OverlayWindowCreate,
        configure_overlay_layer_shell(platform),
        Failure::OverlayWindowMainThread,
        Failure::OverlayWindowMainThreadChannel,
    )
}

/// The steps that make sure the panel window exists.
pub open spec fn spec_ensure_overlay_panel_window(platform: Platform) -> Seq<Step> {
    ensure_steps(
        WindowRole::Panel,
        Failure::OverlayPanelWindowCreate,
        spec_configure_overlay_panel_layer_shell(platform),
        Failure::OverlayPanelWindowMainThread,
        Failure::OverlayPanelWindowMainThreadChannel,
    )
}

/// The steps that make sure the panel window exists.
pub fn ensure_overlay_panel_window(platform: Platform) -> (steps: Vec<Step>)
    ensures
        steps@ == spec_ensure_overlay_panel_window(platform),
{
    ensure_window(
        WindowRole::Panel,
        Failure::OverlayPanelWindowCreate,
        configure_overlay_panel_layer_shell(platform),
        Failure::OverlayPanelWindowMainThread,
        Failure::OverlayPanelWindowMainThreadChannel,
    )
}

/// What showing the overlay does once both windows exist and are shown.
///
/// With a layer shell, stacking and workspaces are the compositor's concern:
/// the overlay is only kept from taking focus. Without one, the window
/// manager is told once more to keep it on top and on every workspace.
/// Either way the pointer passes through it in the end.
pub open spec fn show_overlay_finish(platform: Platform) -> Seq<Step> {
    let click_through = Step::Invoke {
        call: WindowCall::SetIgnoreCursorEvents(WindowRole::Overlay, true),
        failure: Failure::OverlayWindowSetClickThrough,
    };
    match platform {
        Platform::LayerShell => seq![
            Step::Invoke {
                call: WindowCall::SetFocusable(WindowRole::Overlay, false),
                failure: Failure::OverlayWindowSetFocusable,
            },
            click_through,
        ],
        Platform::Native => seq![
            Step::Invoke {
                call: WindowCall::SetAlwaysOnTop(WindowRole::Overlay, true),
                failure: Failure::OverlayWindowAlwaysOnTop,
            },
            Step::Invoke {
                call: WindowCall::SetVisibleOnAllWorkspaces(WindowRole::Overlay, true),
                failure: Failure::OverlayWindowSticky,
            },
            click_through,
        ],
    }
}

/// Showing the overlay: make sure both windows exist, show the overlay, show
/// the panel, then settle the overlay as [`show_overlay_finish`] says.
pub open spec fn spec_show_overlay(platform: Platform) -> Seq<Step> {
    spec_ensure_overlay_window(platform) + spec_ensure_overlay_panel_window(platform) + seq![
        Step::Invoke {
            call: WindowCall::Show(WindowRole::Overlay),
            failure: Failure::OverlayWindowShow,
        },
        Step::Invoke {
            call: WindowCall::Show(WindowRole::Panel),
            failure: Failure::OverlayPanelWindowShow,
        },
    ] + show_overlay_finish(platform)
}

/// The steps of showing the overlay.
pub fn show_overlay(platform: Platform) -> (steps: Vec<Step>)
    ensures
        steps@ == spec_show_overlay(platform),
{
    let mut steps = ensure_overlay_window(platform);
    let mut panel = ensure_overlay_panel_window(platform);
    steps.append(&mut panel);
    steps.push(
        Step::Invoke {
            call: WindowCall::Show(WindowRole::Overlay),
            failure: Failure::OverlayWindowShow,
        },
    );
    steps.push(
        Step::Invoke {
            call: WindowCall::Show(WindowRole::Panel),
            failure: Failure::OverlayPanelWindowShow,
        },
    );
    if platform.has_layer_shell() {
        steps.push(
            Step::Invoke {
                call: WindowCall::SetFocusable(WindowRole::Overlay, false),
                failure: Failure::OverlayWindowSetFocusable,
            },
        );
    } else {
        steps.push(
            Step::Invoke {
                call: WindowCall::SetAlwaysOnTop(WindowRole::Overlay, true),
                failure: Failure::OverlayWindowAlwaysOnTop,
            },
        );
        steps.push(
            Step::Invoke {
                call: WindowCall::SetVisibleOnAllWorkspaces(WindowRole::Overlay, true),
                failure: Failure::OverlayWindowSticky,
            },
        );
    }
    steps.push(
        Step::Invoke {
            call: WindowCall::SetIgnoreCursorEvents(WindowRole::Overlay, true),
            failure: Failure::OverlayWindowSetClickThrough,
        },
    );
    assert(steps@ =~= spec_show_overlay(platform));
    steps
}

/// Resizing the panel: make sure it exists, then give it the size asked for.
pub open spec fn spec_set_overlay_panel_size(platform: Platform) -> Seq<Step> {
    spec_ensure_overlay_panel_window(platform) + seq![
        Step::Invoke {
            call: WindowCall::Resize(WindowRole::Panel),
            failure: Failure::OverlayPanelWindowSetSize,
        },
    ]
}

/// The steps of resizing the panel.
pub fn set_overlay_panel_size(platform: Platform) -> (steps: Vec<Step>)
    ensures
        steps@ == spec_set_overlay_panel_size(platform),
{
    let mut steps = ensure_overlay_panel_window(platform);
    steps.push(
        Step::Invoke {
            call: WindowCall::Resize(WindowRole::Panel),
            failure: Failure::OverlayPanelWindowSetSize,
        },
    );
    assert(steps@ =~= spec_set_overlay_panel_size(platform));
    steps
}

/// Restricting pointer input to a region of the overlay: make sure the
/// overlay exists; then, with a layer shell, have the user-interface thread
/// replace the window's input region. Without one nothing more is done.
pub open spec fn spec_set_overlay_input_region(
    platform: Platform,
    region: OverlayInputRegion,
) -> Seq<Step> {
    spec_ensure_overlay_window(platform) + match platform {
        Platform::LayerShell => seq![
            Step::Dispatch {
                role: WindowRole::Overlay,
                job: LayerJob::spec_input_region(region),
                not_sent: Failure::OverlayWindowMainThread,
                no_reply: Failure::OverlayWindowMainThreadChannel,
            },
        ],
        Platform::Native => Seq::<Step>::empty(),
    }
}

/// The steps of restricting pointer input to a region of the overlay.
pub fn set_overlay_input_region(platform: Platform, region: OverlayInputRegion) -> (steps: Vec<
    Step,
>)
    ensures
        steps@ == spec_set_overlay_input_region(platform, region),
{
    let mut steps = ensure_overlay_window(platform);
    if platform.has_layer_shell() {
        steps.push(
            Step::Dispatch {
                role: WindowRole::Overlay,
                job: LayerJob::input_region(region),
                not_sent: Failure::OverlayWindowMainThread,
                no_reply: Failure::OverlayWindowMainThreadChannel,
            },
        );
    }
    assert(steps@ =~= spec_set_overlay_input_region(platform, region));
    steps
}

/// Hiding the overlay: hide each of the two windows that exists, the overlay
/// first. A window that was never created is passed over.
pub open spec fn spec_hide_overlay() -> Seq<Step> {
    seq![
        Step::Lookup { role: WindowRole::Overlay, found: Branch::Next, missing: Branch::Skip(1) },
        Step::Invoke {
            call: WindowCall::Hide(WindowRole::Overlay),
            failure: Failure::OverlayWindowHide,
        },
        Step::Lookup { role: WindowRole::Panel, found: Branch::Next, missing: Branch::Skip(1) },
        Step::Invoke {
            call: WindowCall::Hide(WindowRole::Panel),
            failure: Failure::OverlayPanelWindowHide,
        },
    ]
}

/// The steps of hiding the overlay.
pub fn hide_overlay() -> (steps: Vec<Step>)
    ensures
        steps@ == spec_hide_overlay(),
{
    let mut steps: Vec<Step> = Vec::new();
    steps.push(
        Step::Lookup { role: WindowRole::Overlay, found: Branch::Next, missing: Branch::Skip(1) },
    );
    steps.push(
        Step::Invoke {
            call: WindowCall::Hide(WindowRole::Overlay),
            failure: Failure::OverlayWindowHide,
        },
    );
    steps.push(
        Step::Lookup { role: WindowRole::Panel, found: Branch::Next, missing: Branch::Skip(1) },
    );
    steps.push(
        Step::Invoke {
            call: WindowCall::Hide(WindowRole::Panel),
            failure: Failure::OverlayPanelWindowHide,
        },
    );
    assert(steps@ =~= spec_hide_overlay());
    steps
}

/// Switching click-through on the overlay: the window must exist already;
/// if it does not, the command fails without creating it.
pub open spec fn spec_set_overlay_click_through(enabled: bool) -> Seq<Step> {
    seq![
        Step::Lookup {
            role: WindowRole::Overlay,
            found: Branch::Next,
            missing: Branch::Fail(Failure::OverlayWindowNotFound),
        },
        Step::Invoke {
            call: WindowCall::SetIgnoreCursorEvents(WindowRole::Overlay, enabled),
            failure: Failure::OverlayWindowSetClickThrough,
        },
    ]
}

/// The steps of switching click-through on the overlay.
pub fn set_overlay_click_through(enabled: bool) -> (steps: Vec<Step>)
    ensures
        steps@ == spec_set_overlay_click_through(enabled),
{
    let mut steps: Vec<Step> = Vec::new();
    steps.push(
        Step::Lookup {
            role: WindowRole::Overlay,
            found: Branch::Next,
            missing: Branch::Fail(Failure::OverlayWindowNotFound),
        },
    );
    steps.push(
        Step::Invoke {
            call: WindowCall::SetIgnoreCursorEvents(WindowRole::Overlay, enabled),
            failure: Failure::OverlayWindowSetClickThrough,
        },
    );
    assert(steps@ =~= spec_set_overlay_click_through(enabled));
    steps
}

/// Whether the pointer passes through the panel once it has been made
/// interactive or not: never with a layer shell, and exactly when the panel
/// is not interactive without one.
pub open spec fn panel_ignores_cursor(platform: Platform, interactive: bool) -> bool {
    match platform {
        Platform::LayerShell => false,
        Platform::Native => !interactive,
    }
}

/// Making the panel interactive or not: make sure it exists; with a layer
/// shell, have the user-interface thread switch its keyboard mode; let it
/// take focus or not; settle click-through as [`panel_ignores_cursor`] says;
/// and, when it is made interactive, give it the focus.
pub open spec fn spec_set_overlay_interactive(platform: Platform, interactive: bool) -> Seq<Step> {
    spec_ensure_overlay_panel_window(platform) + match platform {
        Platform::LayerShell => seq![
            Step::Dispatch {
                role: WindowRole::Panel,
                job: LayerJob::spec_keyboard(interactive),
                not_sent: Failure::OverlayWindowMainThread,
                no_reply: Failure::OverlayWindowMainThreadChannel,
            },
        ],
        Platform::Native => Seq::<Step>::empty(),
    } + seq![
        Step::Invoke {
            call: WindowCall::SetFocusable(WindowRole::Panel, interactive),
            failure: Failure::OverlayWindowSetFocusable,
        },
        Step::Invoke {
            call: WindowCall::SetIgnoreCursorEvents(
                WindowRole::Panel,
                panel_ignores_cursor(platform, interactive),
            ),
            failure: Failure::OverlayWindowSetClickThrough,
        },
    ] + if interactive {
        seq![
            Step::Invoke {
                call: WindowCall::SetFocus(WindowRole::Panel),
                failure: Failure::OverlayWindowFocus,
            },
        ]
    } else {
        Seq::<Step>::empty()
    }
}

/// The steps of making the panel interactive or not.
pub fn set_overlay_interactive(platform: Platform, interactive: bool) -> (steps: Vec<Step>)
    ensures
        steps@ == spec_set_overlay_interactive(platform, interactive),
{
    let mut steps = ensure_overlay_panel_window(platform);
    let layer_shell = platform.has_layer_shell();
    if layer_shell {
        steps.push(
            Step::Dispatch {
                role: WindowRole::Panel,
                job: LayerJob::keyboard(interactive),
                not_sent: Failure::OverlayWindowMainThread,
                no_reply: Failure::OverlayWindowMainThreadChannel,
            },
        );
    }
    steps.push(
        Step::Invoke {
            call: WindowCall::SetFocusable(WindowRole::Panel, interactive),
            failure: Failure::OverlayWindowSetFocusable,
        },
    );
    let ignore_cursor = !layer_shell && !interactive;
    steps.push(
        Step::Invoke {
            call: WindowCall::SetIgnoreCursorEvents(WindowRole::Panel, ignore_cursor),
            failure: Failure::OverlayWindowSetClickThrough,
        },
    );
    if interactive {
        steps.push(
            Step::Invoke {
                call: WindowCall::SetFocus(WindowRole::Panel),
                failure: Failure::OverlayWindowFocus,
            },
        );
    }
    assert(steps@ =~= spec_set_overlay_interactive(platform, interactive));
    steps
}

/// `branch` passes over no more than `rest` steps.
pub open spec fn branch_stays_inside(branch: Branch, rest: int) -> bool {
    branch matches Branch::Skip(count) ==> count <= rest
}

/// Every skip in `steps` lands on one of the steps or just behind the last:
/// none of them cuts a command short.
pub open spec fn skips_stay_inside(steps: Seq<Step>) -> bool {
    forall|i: int|
        0 <= i < steps.len() ==> (#[trigger] steps[i] matches Step::Lookup { found, missing, .. }
            ==> branch_stays_inside(found, steps.len() - i - 1) && branch_stays_inside(
            missing,
            steps.len() - i - 1,
        ))
}

/// Steps whose skips stay inside keep them inside when more steps are put
/// in front or behind.
pub proof fn lemma_skips_stay_inside_joined(front: Seq<Step>, back: Seq<Step>)
    requires
        skips_stay_inside(front),
        skips_stay_inside(back),
    ensures
        skips_stay_inside(front + back),
{
    let joined = front + back;
    assert forall|i: int| 0 <= i < joined.len() implies (#[trigger] joined[i] matches Step::Lookup {
        found,
        missing,
        ..
    } ==> branch_stays_inside(found, joined.len() - i - 1) && branch_stays_inside(
        missing,
        joined.len() - i - 1,
    )) by {
        if i < front.len() {
            assert(joined[i] == front[i]);
        } else {
            assert(joined[i] == back[i - front.len()]);
        }
    }
}

/// Making sure of a window skips exactly the steps that create it.
pub proof fn lemma_ensure_skips_stay_inside(
    role: WindowRole,
    create: Failure,
    job: Option<LayerJob>,
    not_sent: Failure,
    no_reply: Failure,
)
    ensures
        skips_stay_inside(ensure_steps(role, create, job, not_sent, no_reply)),
{
}

/// No command of the overlay is cut short by a skip.
pub proof fn lemma_commands_skip_inside(
    platform: Platform,
    region: OverlayInputRegion,
    enabled: bool,
    interactive: bool,
)
    ensures
        skips_stay_inside(spec_ensure_overlay_window(platform)),
        skips_stay_inside(spec_ensure_overlay_panel_window(platform)),
        skips_stay_inside(spec_show_overlay(platform)),
        skips_stay_inside(spec_hide_overlay()),
        skips_stay_inside(spec_set_overlay_click_through(enabled)),
        skips_stay_inside(spec_set_overlay_interactive(platform, interactive)),
        skips_stay_inside(spec_set_overlay_input_region(platform, region)),
        skips_stay_inside(spec_set_overlay_panel_size(platform)),
{
    let overlay = spec_ensure_overlay_window(platform);
    let panel = spec_ensure_overlay_panel_window(platform);
    lemma_ensure_skips_stay_inside(
        WindowRole::Overlay,
        Failure::OverlayWindowCreate,
        spec_configure_overlay_layer_shell(platform),
        Failure::OverlayWindowMainThread,
        Failure::OverlayWindowMainThreadChannel,
    );
    lemma_ensure_skips_stay_inside(
        WindowRole::Panel,
        Failure::OverlayPanelWindowCreate,
        spec_configure_overlay_panel_layer_shell(platform),
        Failure::OverlayPanelWindowMainThread,
        Failure::OverlayPanelWindowMainThreadChannel,
    );
    assert(skips_stay_inside(spec_show_overlay(platform))) by {
        let shown = seq![
            Step::Invoke {
                call: WindowCall::Show(WindowRole::Overlay),
                failure: Failure::OverlayWindowShow,
            },
            Step::Invoke {
                call: WindowCall::Show(WindowRole::Panel),
                failure: Failure::OverlayPanelWindowShow,
            },
        ];
        lemma_skips_stay_inside_joined(overlay, panel);
        lemma_skips_stay_inside_joined(overlay + panel, shown);
        lemma_skips_stay_inside_joined(overlay + panel + shown, show_overlay_finish(platform));
    }
    assert(skips_stay_inside(spec_set_overlay_interactive(platform, interactive))) by {
        let steps = spec_set_overlay_interactive(platform, interactive);
        let tail = steps.subrange(panel.len() as int, steps.len() as int);
        assert(steps =~= panel + tail);
        lemma_skips_stay_inside_joined(panel, tail);
    }
    assert(skips_stay_inside(spec_set_overlay_input_region(platform, region))) by {
        let steps = spec_set_overlay_input_region(platform, region);
        let tail = steps.subrange(overlay.len() as int, steps.len() as int);
        assert(steps =~= overlay + tail);
        lemma_skips_stay_inside_joined(overlay, tail);
    }
    assert(skips_stay_inside(spec_set_overlay_panel_size(platform))) by {
        let steps = spec_set_overlay_panel_size(platform);
        let tail = steps.subrange(panel.len() as int, steps.len() as int);
        assert(steps =~= panel + tail);
        lemma_skips_stay_inside_joined(panel, tail);
    }
}

/// The windows a command has got hold of so far.
pub struct Held {
    pub overlay: bool,
    pub panel: bool,
}

impl Held {
    /// No window yet.
    pub open spec fn nothing() -> Held {
        Held { overlay: false, panel: false }
    }

    /// Whether the window of this role is in hand.
    pub open spec fn holds(self, role: WindowRole) -> bool {
        match role {
            WindowRole::Overlay => self.overlay,
            WindowRole::Panel => self.panel,
        }
    }

    /// These windows and the one of this role.
    pub open spec fn with(self, role: WindowRole) -> Held {
        match role {
            WindowRole::Overlay => Held { overlay: true, ..self },
            WindowRole::Panel => Held { panel: true, ..self },
        }
    }
}

/// The window a step acts on and so must have in hand. Looking a window up
/// or creating it needs none.
pub open spec fn needed_window(step: Step) -> Option<WindowRole> {
    match step {
        Step::Lookup { .. } => None,
        Step::Invoke { call: WindowCall::Build(_), .. } => None,
        Step::Invoke { call, .. } => Some(call.spec_role()),
        Step::Dispatch { role, .. } => Some(role),
    }
}

/// Where a run stands after the step at `from` and `count` more.
pub open spec fn landing(steps: Seq<Step>, from: int, count: int) -> int {
    if from + 1 + count <= steps.len() {
        from + 1 + count
    } else {
        steps.len() as int
    }
}

/// From step `from` on, with the windows `held` in hand, every way through
/// `steps` acts only on windows that were found or created earlier on that
/// way.
pub open spec fn windows_in_hand(steps: Seq<Step>, from: int, held: Held) -> bool
    decreases steps.len() - from,
{
    if from < 0 || from >= steps.len() {
        true
    } else {
        let step = steps[from];
        &&& needed_window(step) matches Some(role) ==> held.holds(role)
        &&& match step {
            Step::Lookup { role, found, missing } => {
                &&& match found {
                    Branch::Next => windows_in_hand(steps, from + 1, held.with(role)),
                    Branch::Skip(count) => windows_in_hand(
                        steps,
                        landing(steps, from, count as int),
                        held.with(role),
                    ),
                    Branch::Fail(_) => true,
                }
                &&& match missing {
                    Branch::Next => windows_in_hand(steps, from + 1, held),
                    Branch::Skip(count) => windows_in_hand(
                        steps,
                        landing(steps, from, count as int),
                        held,
                    ),
                    Branch::Fail(_) => true,
                }
            },
            Step::Invoke { call: WindowCall::Build(options), .. } => windows_in_hand(
                steps,
                from + 1,
                held.with(options.role),
            ),
            _ => windows_in_hand(steps, from + 1, held),
        }
    }
}

/// What follows a given step does not depend on the steps in front of it.
pub proof fn lemma_in_hand_behind_a_front(front: Seq<Step>, back: Seq<Step>, from: int, held: Held)
    requires
        0 <= from <= back.len(),
    ensures
        windows_in_hand(front + back, front.len() + from, held) == windows_in_hand(back, from, held),
    decreases back.len() - from,
{
    let steps = front + back;
    if from < back.len() {
        assert(steps[front.len() + from] == back[from]);
        lemma_in_hand_behind_a_front(front, back, from + 1, held);
        match back[from] {
            Step::Lookup { role, found, missing } => {
                lemma_in_hand_behind_a_front(front, back, from + 1, held.with(role));
                if let Branch::Skip(count) = found {
                    let to = landing(back, from, count as int);
                    assert(landing(steps, front.len() + from, count as int) == front.len() + to);
                    lemma_in_hand_behind_a_front(front, back, to, held.with(role));
                }
                if let Branch::Skip(count) = missing {
                    let to = landing(back, from, count as int);
                    assert(landing(steps, front.len() + from, count as int) == front.len() + to);
                    lemma_in_hand_behind_a_front(front, back, to, held);
                }
            },
            Step::Invoke { call: WindowCall::Build(options), .. } => {
                lemma_in_hand_behind_a_front(front, back, from + 1, held.with(options.role));
            },
            _ => {},
        }
    }
}

/// Making sure of a window puts it in hand for all that follows.
pub proof fn lemma_ensure_puts_window_in_hand(
    role: WindowRole,
    create: Failure,
    job: Option<LayerJob>,
    not_sent: Failure,
    no_reply: Failure,
    back: Seq<Step>,
    held: Held,
)
    requires
        windows_in_hand(back, 0, held.with(role)),
    ensures
        windows_in_hand(ensure_steps(role, create, job, not_sent, no_reply) + back, 0, held),
{
    let ensure = ensure_steps(role, create, job, not_sent, no_reply);
    let steps = ensure + back;
    lemma_in_hand_behind_a_front(ensure, back, 0, held.with(role));
    assert(steps[0] == ensure[0]);
    assert(steps[1] == ensure[1]);
    if job is Some {
        assert(steps[2] == ensure[2]);
    }
    reveal_with_fuel(windows_in_hand, 4);
}

/// Every one of `steps` acts on a window, and on one of `held`.
pub open spec fn acts_on_held(steps: Seq<Step>, held: Held) -> bool {
    forall|i: int|
        0 <= i < steps.len() ==> (needed_window(#[trigger] steps[i]) matches Some(role)
            && held.holds(role))
}

/// Steps that only act on windows in hand are safe to take.
pub proof fn lemma_acting_on_held_is_in_hand(steps: Seq<Step>, from: int, held: Held)
    requires
        0 <= from,
        acts_on_held(steps, held),
    ensures
        windows_in_hand(steps, from, held),
    decreases steps.len() - from,
{
    if from < steps.len() {
        assert(needed_window(steps[from]) is Some);
        lemma_acting_on_held_is_in_hand(steps, from + 1, held);
    }
}

/// Every command of the overlay finds or creates a window before it acts on
/// it, whatever the window system answers.
pub proof fn lemma_commands_act_on_windows_in_hand(
    platform: Platform,
    region: OverlayInputRegion,
    enabled: bool,
    interactive: bool,
)
    ensures
        windows_in_hand(spec_show_overlay(platform), 0, Held::nothing()),
        windows_in_hand(spec_hide_overlay(), 0, Held::nothing()),
        windows_in_hand(spec_set_overlay_click_through(enabled), 0, Held::nothing()),
        windows_in_hand(spec_set_overlay_interactive(platform, interactive), 0, Held::nothing()),
        windows_in_hand(spec_set_overlay_input_region(platform, region), 0, Held::nothing()),
        windows_in_hand(spec_set_overlay_panel_size(platform), 0, Held::nothing()),
{
    let overlay = spec_ensure_overlay_window(platform);
    let panel = spec_ensure_overlay_panel_window(platform);
    let with_overlay = Held::nothing().with(WindowRole::Overlay);
    let with_panel = Held::nothing().with(WindowRole::Panel);
    let with_both = with_overlay.with(WindowRole::Panel);
    assert(windows_in_hand(spec_show_overlay(platform), 0, Held::nothing())) by {
        let steps = spec_show_overlay(platform);
        let tail = steps.subrange((overlay.len() + panel.len()) as int, steps.len() as int);
        assert(steps =~= overlay + (panel + tail));
        assert(acts_on_held(tail, with_both));
        lemma_acting_on_held_is_in_hand(tail, 0, with_both);
        lemma_ensure_puts_window_in_hand(
            WindowRole::Panel,
            Failure::OverlayPanelWindowCreate,
            spec_configure_overlay_panel_layer_shell(platform),
            Failure::OverlayPanelWindowMainThread,
            Failure::OverlayPanelWindowMainThreadChannel,
            tail,
            with_overlay,
        );
        lemma_ensure_puts_window_in_hand(
            WindowRole::Overlay,
            Failure::OverlayWindowCreate,
            spec_configure_overlay_layer_shell(platform),
            Failure::OverlayWindowMainThread,
            Failure::OverlayWindowMainThreadChannel,
            panel + tail,
            Held::nothing(),
        );
    }
    assert(windows_in_hand(spec_hide_overlay(), 0, Held::nothing())) by {
        reveal_with_fuel(windows_in_hand, 5);
    }
    assert(windows_in_hand(spec_set_overlay_click_through(enabled), 0, Held::nothing())) by {
        reveal_with_fuel(windows_in_hand, 3);
    }
    assert(windows_in_hand(spec_set_overlay_interactive(platform, interactive), 0, Held::nothing()))
        by {
        let steps = spec_set_overlay_interactive(platform, interactive);
        let tail = steps.subrange(panel.len() as int, steps.len() as int);
        assert(steps =~= panel + tail);
        assert(acts_on_held(tail, with_panel));
        lemma_acting_on_held_is_in_hand(tail, 0, with_panel);
        lemma_ensure_puts_window_in_hand(
            WindowRole::Panel,
            Failure::OverlayPanelWindowCreate,
            spec_configure_overlay_panel_layer_shell(platform),
            Failure::OverlayPanelWindowMainThread,
            Failure::OverlayPanelWindowMainThreadChannel,
            tail,
            Held::nothing(),
        );
    }
    assert(windows_in_hand(spec_set_overlay_input_region(platform, region), 0, Held::nothing()))
        by {
        let steps = spec_set_overlay_input_region(platform, region);
        let tail = steps.subrange(overlay.len() as int, steps.len() as int);
        assert(steps =~= overlay + tail);
        assert(acts_on_held(tail, with_overlay));
        lemma_acting_on_held_is_in_hand(tail, 0, with_overlay);
        lemma_ensure_puts_window_in_hand(
            WindowRole::Overlay,
            Failure::OverlayWindowCreate,
            spec_configure_overlay_layer_shell(platform),
            Failure::OverlayWindowMainThread,
            Failure::OverlayWindowMainThreadChannel,
            tail,
            Held::nothing(),
        );
    }
    assert(windows_in_hand(spec_set_overlay_panel_size(platform), 0, Held::nothing())) by {
        let steps = spec_set_overlay_panel_size(platform);
        let tail = steps.subrange(panel.len() as int, steps.len() as int);
        assert(steps =~= panel + tail);
        assert(acts_on_held(tail, with_panel));
        lemma_acting_on_held_is_in_hand(tail, 0, with_panel);
        lemma_ensure_puts_window_in_hand(
            WindowRole::Panel,
            Failure::OverlayPanelWindowCreate,
            spec_configure_overlay_panel_layer_shell(platform),
            Failure::OverlayPanelWindowMainThread,
            Failure::OverlayPanelWindowMainThreadChannel,
            tail,
            Held::nothing(),
        );
    }
}

} // verus!
