use poe_overlay::error::{CommandError, Failure};
use poe_overlay::layer::{
    configure_overlay_layer_shell, configure_overlay_panel_layer_shell, Anchoring, Edge,
    InputRect, JobAction, JobEvent, KeyboardMode, Layer, LayerJob, LayerShellConfig,
    OverlayInputRegion, RegionChange, PANEL_MARGIN,
};
use poe_overlay::platform::Platform;
use poe_overlay::window::{LogicalSize, WindowCall, WindowOptions, WindowRole};

#[test]
fn window_labels() {
    assert_eq!(WindowRole::Overlay.label(), "overlay");
    assert_eq!(WindowRole::Panel.label(), "overlay_panel");
}

#[test]
fn window_urls() {
    assert_eq!(WindowRole::Overlay.url(), "index.html?view=overlay");
    assert_eq!(WindowRole::Panel.url(), "index.html?view=overlay-panel");
}

#[test]
fn window_namespaces() {
    assert_eq!(WindowRole::Overlay.namespace(), "poe-tauri-overlay");
    assert_eq!(WindowRole::Panel.namespace(), "poe-tauri-overlay-panel");
}

#[test]
fn overlay_window_options() {
    assert_eq!(
        WindowOptions::for_role(WindowRole::Overlay),
        WindowOptions {
            role: WindowRole::Overlay,
            transparent: true,
            decorations: false,
            always_on_top: true,
            visible_on_all_workspaces: true,
            skip_taskbar: true,
            focusable: false,
            visible: false,
            resizable: true,
            maximized: true,
            inner_size: None,
        }
    );
}

#[test]
fn panel_window_options() {
    assert_eq!(
        WindowOptions::for_role(WindowRole::Panel),
        WindowOptions {
            role: WindowRole::Panel,
            transparent: true,
            decorations: false,
            always_on_top: true,
            visible_on_all_workspaces: true,
            skip_taskbar: true,
            focusable: true,
            visible: false,
            resizable: false,
            maximized: false,
            inner_size: Some(LogicalSize { width: 10, height: 10 }),
        }
    );
}

#[test]
fn window_call_names_its_window() {
    assert_eq!(
        WindowCall::Build(WindowOptions::for_role(WindowRole::Panel)).role(),
        WindowRole::Panel
    );
    assert_eq!(WindowCall::Show(WindowRole::Overlay).role(), WindowRole::Overlay);
    assert_eq!(WindowCall::Hide(WindowRole::Panel).role(), WindowRole::Panel);
    assert_eq!(WindowCall::SetAlwaysOnTop(WindowRole::Overlay, true).role(), WindowRole::Overlay);
    assert_eq!(
        WindowCall::SetVisibleOnAllWorkspaces(WindowRole::Overlay, true).role(),
        WindowRole::Overlay
    );
    assert_eq!(WindowCall::SetFocusable(WindowRole::Panel, false).role(), WindowRole::Panel);
    assert_eq!(
        WindowCall::SetIgnoreCursorEvents(WindowRole::Overlay, false).role(),
        WindowRole::Overlay
    );
    assert_eq!(WindowCall::SetFocus(WindowRole::Panel).role(), WindowRole::Panel);
    assert_eq!(WindowCall::Resize(WindowRole::Panel).role(), WindowRole::Panel);
}

#[test]
fn overlay_layer_surface() {
    let attached = Anchoring { anchored: true, margin: 0 };
    assert_eq!(
        LayerShellConfig::for_role(WindowRole::Overlay),
        LayerShellConfig {
            role: WindowRole::Overlay,
            layer: Layer::Overlay,
            keyboard_mode: KeyboardMode::Off,
            exclusive_zone: 0,
            top: attached,
            bottom: attached,
            left: attached,
            right: attached,
        }
    );
}

#[test]
fn panel_layer_surface() {
    assert_eq!(PANEL_MARGIN, 24);
    assert_eq!(
        LayerShellConfig::for_role(WindowRole::Panel),
        LayerShellConfig {
            role: WindowRole::Panel,
            layer: Layer::Overlay,
            keyboard_mode: KeyboardMode::Off,
            exclusive_zone: 0,
            top: Anchoring { anchored: true, margin: 24 },
            bottom: Anchoring { anchored: false, margin: 0 },
            left: Anchoring { anchored: true, margin: 24 },
            right: Anchoring { anchored: false, margin: 0 },
        }
    );
}

#[test]
fn edge_picks_the_matching_side() {
    let config = LayerShellConfig {
        role: WindowRole::Panel,
        layer: Layer::Top,
        keyboard_mode: KeyboardMode::Exclusive,
        exclusive_zone: 7,
        top: Anchoring { anchored: true, margin: 1 },
        bottom: Anchoring { anchored: false, margin: 2 },
        left: Anchoring { anchored: true, margin: 3 },
        right: Anchoring { anchored: false, margin: 4 },
    };
    assert_eq!(config.edge(Edge::Top), Anchoring { anchored: true, margin: 1 });
    assert_eq!(config.edge(Edge::Bottom), Anchoring { anchored: false, margin: 2 });
    assert_eq!(config.edge(Edge::Left), Anchoring { anchored: true, margin: 3 });
    assert_eq!(config.edge(Edge::Right), Anchoring { anchored: false, margin: 4 });
}

#[test]
fn keyboard_mode_follows_interactivity() {
    assert_eq!(KeyboardMode::for_interactive(true), KeyboardMode::OnDemand);
    assert_eq!(KeyboardMode::for_interactive(false), KeyboardMode::Off);
}

#[test]
fn clamped_keeps_a_proper_region() {
    let region = OverlayInputRegion { x: 5, y: -7, width: 300, height: 200 };
    assert_eq!(region.clamped(), InputRect { x: 5, y: -7, width: 300, height: 200 });
}

#[test]
fn clamped_raises_negative_extents_to_zero() {
    let region = OverlayInputRegion { x: 1, y: 2, width: -3, height: 4 };
    assert_eq!(region.clamped(), InputRect { x: 1, y: 2, width: 0, height: 4 });
    let region = OverlayInputRegion { x: 1, y: 2, width: 3, height: -4 };
    assert_eq!(region.clamped(), InputRect { x: 1, y: 2, width: 3, height: 0 });
}

#[test]
fn clamped_at_the_limits_of_the_integers() {
    let region =
        OverlayInputRegion { x: i32::MIN, y: i32::MAX, width: i32::MIN, height: i32::MAX };
    assert_eq!(
        region.clamped(),
        InputRect { x: i32::MIN, y: i32::MAX, width: 0, height: i32::MAX }
    );
    let region = OverlayInputRegion { x: 0, y: 0, width: 0, height: 0 };
    assert_eq!(region.clamped(), InputRect { x: 0, y: 0, width: 0, height: 0 });
}

#[test]
fn overlay_configure_job() {
    assert_eq!(configure_overlay_layer_shell(Platform::Native), None);
    assert_eq!(
        configure_overlay_layer_shell(Platform::LayerShell),
        Some(LayerJob {
            probe: true,
            window_failure: Failure::OverlayWindowGtkWindow,
            setup: Some(LayerShellConfig::for_role(WindowRole::Overlay)),
            keyboard_mode: None,
            input_region: RegionChange::Clear,
        })
    );
}

#[test]
fn panel_configure_job() {
    assert_eq!(configure_overlay_panel_layer_shell(Platform::Native), None);
    assert_eq!(
        configure_overlay_panel_layer_shell(Platform::LayerShell),
        Some(LayerJob {
            probe: true,
            window_failure: Failure::OverlayPanelWindowGtkWindow,
            setup: Some(LayerShellConfig::for_role(WindowRole::Panel)),
            keyboard_mode: None,
            input_region: RegionChange::Keep,
        })
    );
}

#[test]
fn keyboard_job() {
    assert_eq!(
        LayerJob::keyboard(true),
        LayerJob {
            probe: true,
            window_failure: Failure::OverlayWindowGtkWindow,
            setup: None,
            keyboard_mode: Some(KeyboardMode::OnDemand),
            input_region: RegionChange::Keep,
        }
    );
    assert_eq!(LayerJob::keyboard(false).keyboard_mode, Some(KeyboardMode::Off));
}

#[test]
fn input_region_job_clamps_and_does_not_probe() {
    let region = OverlayInputRegion { x: 10, y: 20, width: -1, height: 40 };
    assert_eq!(
        LayerJob::input_region(region),
        LayerJob {
            probe: false,
            window_failure: Failure::OverlayWindowGtkWindow,
            setup: None,
            keyboard_mode: None,
            input_region: RegionChange::Replace(InputRect { x: 10, y: 20, width: 0, height: 40 }),
        }
    );
}

#[test]
fn probing_job_asks_the_compositor_first() {
    let job = LayerJob::keyboard(true);
    assert_eq!(job.next(JobEvent::Started), JobAction::Probe);
    assert_eq!(job.next(JobEvent::Probed(true)), JobAction::AcquireWindow);
    assert_eq!(job.next(JobEvent::WindowAcquired), JobAction::Apply);
    assert_eq!(job.next(JobEvent::Applied), JobAction::Finish(Ok(true)));
}

#[test]
fn job_without_probe_goes_straight_to_the_window() {
    let job = LayerJob::input_region(OverlayInputRegion { x: 0, y: 0, width: 1, height: 1 });
    assert_eq!(job.next(JobEvent::Started), JobAction::AcquireWindow);
    assert_eq!(job.next(JobEvent::WindowAcquired), JobAction::Apply);
    assert_eq!(job.next(JobEvent::Applied), JobAction::Finish(Ok(true)));
}

#[test]
fn job_ends_quietly_without_layer_shell_support() {
    let job = configure_overlay_layer_shell(Platform::LayerShell).unwrap();
    assert_eq!(job.next(JobEvent::Probed(false)), JobAction::Finish(Ok(false)));
}

#[test]
fn job_reports_a_window_it_cannot_get() {
    let overlay = configure_overlay_layer_shell(Platform::LayerShell).unwrap();
    assert_eq!(
        overlay.next(JobEvent::WindowFailed("no gtk window".to_string())),
        JobAction::Finish(Err(CommandError {
            kind: "overlay_window_gtk_window_failed".to_string(),
            message: "no gtk window".to_string(),
        }))
    );
    let panel = configure_overlay_panel_layer_shell(Platform::LayerShell).unwrap();
    assert_eq!(
        panel.next(JobEvent::WindowFailed("no gtk window".to_string())),
        JobAction::Finish(Err(CommandError {
            kind: "overlay_panel_window_gtk_window_failed".to_string(),
            message: "no gtk window".to_string(),
        }))
    );
}
