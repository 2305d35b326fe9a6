use poe_overlay::error::Failure;
use poe_overlay::layer::{
    configure_overlay_layer_shell, configure_overlay_panel_layer_shell, InputRect, LayerJob,
    OverlayInputRegion, RegionChange,
};
use poe_overlay::plan::{
    ensure_overlay_panel_window, ensure_overlay_window, hide_overlay, set_overlay_click_through,
    set_overlay_input_region, set_overlay_interactive, set_overlay_panel_size, show_overlay,
    Branch, Step,
};
use poe_overlay::platform::Platform;
use poe_overlay::window::{WindowCall, WindowOptions, WindowRole};

fn call(call: WindowCall, failure: Failure) -> Step {
    Step::Invoke { call, failure }
}

fn overlay_on_layer_shell() -> Vec<Step> {
    vec![
        Step::Lookup { role: WindowRole::Overlay, found: Branch::Skip(2), missing: Branch::Next },
        call(
            WindowCall::Build(WindowOptions::for_role(WindowRole::Overlay)),
            Failure::OverlayWindowCreate,
        ),
        Step::Dispatch {
            role: WindowRole::Overlay,
            job: configure_overlay_layer_shell(Platform::LayerShell).unwrap(),
            not_sent: Failure::OverlayWindowMainThread,
            no_reply: Failure::OverlayWindowMainThreadChannel,
        },
    ]
}

fn overlay_on_native() -> Vec<Step> {
    vec![
        Step::Lookup { role: WindowRole::Overlay, found: Branch::Skip(1), missing: Branch::Next },
        call(
            WindowCall::Build(WindowOptions::for_role(WindowRole::Overlay)),
            Failure::OverlayWindowCreate,
        ),
    ]
}

fn panel_on_layer_shell() -> Vec<Step> {
    vec![
        Step::Lookup { role: WindowRole::Panel, found: Branch::Skip(2), missing: Branch::Next },
        call(
            WindowCall::Build(WindowOptions::for_role(WindowRole::Panel)),
            Failure::OverlayPanelWindowCreate,
        ),
        Step::Dispatch {
            role: WindowRole::Panel,
            job: configure_overlay_panel_layer_shell(Platform::LayerShell).unwrap(),
            not_sent: Failure::OverlayPanelWindowMainThread,
            no_reply: Failure::OverlayPanelWindowMainThreadChannel,
        },
    ]
}

fn panel_on_native() -> Vec<Step> {
    vec![
        Step::Lookup { role: WindowRole::Panel, found: Branch::Skip(1), missing: Branch::Next },
        call(
            WindowCall::Build(WindowOptions::for_role(WindowRole::Panel)),
            Failure::OverlayPanelWindowCreate,
        ),
    ]
}

fn joined(parts: Vec<Vec<Step>>) -> Vec<Step> {
    let mut all = Vec::new();
    for part in parts {
        all.extend(part);
    }
    all
}

#[test]
fn ensure_overlay_window_steps() {
    assert_eq!(ensure_overlay_window(Platform::LayerShell), overlay_on_layer_shell());
    assert_eq!(ensure_overlay_window(Platform::Native), overlay_on_native());
}

#[test]
fn ensure_overlay_panel_window_steps() {
    assert_eq!(ensure_overlay_panel_window(Platform::LayerShell), panel_on_layer_shell());
    assert_eq!(ensure_overlay_panel_window(Platform::Native), panel_on_native());
}

#[test]
fn show_overlay_on_layer_shell() {
    let rest = vec![
        call(WindowCall::Show(WindowRole::Overlay), Failure::OverlayWindowShow),
        call(WindowCall::Show(WindowRole::Panel), Failure::OverlayPanelWindowShow),
        call(
            WindowCall::SetFocusable(WindowRole::Overlay, false),
            Failure::OverlayWindowSetFocusable,
        ),
        call(
            WindowCall::SetIgnoreCursorEvents(WindowRole::Overlay, true),
            Failure::OverlayWindowSetClickThrough,
        ),
    ];
    let steps = show_overlay(Platform::LayerShell);
    assert_eq!(steps.len(), 10);
    assert_eq!(steps, joined(vec![overlay_on_layer_shell(), panel_on_layer_shell(), rest]));
}

#[test]
fn show_overlay_on_native() {
    let rest = vec![
        call(WindowCall::Show(WindowRole::Overlay), Failure::OverlayWindowShow),
        call(WindowCall::Show(WindowRole::Panel), Failure::OverlayPanelWindowShow),
        call(
            WindowCall::SetAlwaysOnTop(WindowRole::Overlay, true),
            Failure::OverlayWindowAlwaysOnTop,
        ),
        call(
            WindowCall::SetVisibleOnAllWorkspaces(WindowRole::Overlay, true),
            Failure::OverlayWindowSticky,
        ),
        call(
            WindowCall::SetIgnoreCursorEvents(WindowRole::Overlay, true),
            Failure::OverlayWindowSetClickThrough,
        ),
    ];
    let steps = show_overlay(Platform::Native);
    assert_eq!(steps.len(), 9);
    assert_eq!(steps, joined(vec![overlay_on_native(), panel_on_native(), rest]));
}

#[test]
fn hide_overlay_steps() {
    assert_eq!(
        hide_overlay(),
        vec![
            Step::Lookup {
                role: WindowRole::Overlay,
                found: Branch::Next,
                missing: Branch::Skip(1)
            },
            call(WindowCall::Hide(WindowRole::Overlay), Failure::OverlayWindowHide),
            Step::Lookup { role: WindowRole::Panel, found: Branch::Next, missing: Branch::Skip(1) },
            call(WindowCall::Hide(WindowRole::Panel), Failure::OverlayPanelWindowHide),
        ]
    );
}

#[test]
fn set_overlay_click_through_steps() {
    for enabled in [true, false] {
        assert_eq!(
            set_overlay_click_through(enabled),
            vec![
                Step::Lookup {
                    role: WindowRole::Overlay,
                    found: Branch::Next,
                    missing: Branch::Fail(Failure::OverlayWindowNotFound),
                },
                call(
                    WindowCall::SetIgnoreCursorEvents(WindowRole::Overlay, enabled),
                    Failure::OverlayWindowSetClickThrough,
                ),
            ]
        );
    }
}

#[test]
fn set_overlay_panel_size_steps() {
    let resize = call(WindowCall::Resize(WindowRole::Panel), Failure::OverlayPanelWindowSetSize);
    assert_eq!(
        set_overlay_panel_size(Platform::LayerShell),
        joined(vec![panel_on_layer_shell(), vec![resize]])
    );
    assert_eq!(
        set_overlay_panel_size(Platform::Native),
        joined(vec![panel_on_native(), vec![resize]])
    );
}

#[test]
fn set_overlay_input_region_on_layer_shell() {
    let region = OverlayInputRegion { x: 3, y: 4, width: -5, height: 6 };
    let dispatch = Step::Dispatch {
        role: WindowRole::Overlay,
        job: LayerJob {
            probe: false,
            window_failure: Failure::OverlayWindowGtkWindow,
            setup: None,
            keyboard_mode: None,
            input_region: RegionChange::Replace(InputRect { x: 3, y: 4, width: 0, height: 6 }),
        },
        not_sent: Failure::OverlayWindowMainThread,
        no_reply: Failure::OverlayWindowMainThreadChannel,
    };
    assert_eq!(
        set_overlay_input_region(Platform::LayerShell, region),
        joined(vec![overlay_on_layer_shell(), vec![dispatch]])
    );
}

#[test]
fn set_overlay_input_region_on_native_only_ensures_the_window() {
    let region = OverlayInputRegion { x: 3, y: 4, width: 5, height: 6 };
    assert_eq!(set_overlay_input_region(Platform::Native, region), overlay_on_native());
}

#[test]
fn set_overlay_interactive_on_layer_shell() {
    for interactive in [true, false] {
        let mut rest = vec![
            Step::Dispatch {
                role: WindowRole::Panel,
                job: LayerJob::keyboard(interactive),
                not_sent: Failure::OverlayWindowMainThread,
                no_reply: Failure::OverlayWindowMainThreadChannel,
            },
            call(
                WindowCall::SetFocusable(WindowRole::Panel, interactive),
                Failure::OverlayWindowSetFocusable,
            ),
            call(
                WindowCall::SetIgnoreCursorEvents(WindowRole::Panel, false),
                Failure::OverlayWindowSetClickThrough,
            ),
        ];
        if interactive {
            rest.push(call(WindowCall::SetFocus(WindowRole::Panel), Failure::OverlayWindowFocus));
        }
        assert_eq!(
            set_overlay_interactive(Platform::LayerShell, interactive),
            joined(vec![panel_on_layer_shell(), rest])
        );
    }
}

#[test]
fn set_overlay_interactive_on_native() {
    for interactive in [true, false] {
        let mut rest = vec![
            call(
                WindowCall::SetFocusable(WindowRole::Panel, interactive),
                Failure::OverlayWindowSetFocusable,
            ),
            call(
                WindowCall::SetIgnoreCursorEvents(WindowRole::Panel, !interactive),
                Failure::OverlayWindowSetClickThrough,
            ),
        ];
        if interactive {
            rest.push(call(WindowCall::SetFocus(WindowRole::Panel), Failure::OverlayWindowFocus));
        }
        assert_eq!(
            set_overlay_interactive(Platform::Native, interactive),
            joined(vec![panel_on_native(), rest])
        );
    }
}

#[test]
fn no_library_command_skips_past_its_end() {
    let region = OverlayInputRegion { x: 0, y: 0, width: 1, height: 1 };
    let mut commands = vec![hide_overlay()];
    for platform in [Platform::LayerShell, Platform::Native] {
        commands.push(ensure_overlay_window(platform));
        commands.push(ensure_overlay_panel_window(platform));
        commands.push(show_overlay(platform));
        commands.push(set_overlay_panel_size(platform));
        commands.push(set_overlay_input_region(platform, region));
        for flag in [true, false] {
            commands.push(set_overlay_interactive(platform, flag));
            commands.push(set_overlay_click_through(flag));
        }
    }
    for steps in commands {
        for (index, step) in steps.iter().enumerate() {
            if let Step::Lookup { found, missing, .. } = step {
                for branch in [found, missing] {
                    if let Branch::Skip(count) = branch {
                        assert!(index + 1 + count <= steps.len());
                    }
                }
            }
        }
    }
}
