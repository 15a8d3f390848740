use taskbar_autohide::{
    animation_running, desired_state, ease_in_out_cubic, fast_settings, get_taskbar_size,
    interpolate, placement_for, select_maximized, taskbar_automation, Action, AnimationPlan,
    AnimationSettings, AppbarState, AutomationPass, Event, Placement, ScreenSize, TaskbarSize,
    TrackedWindow, WindowHandle, WindowMove, WindowRect, WindowStatus, ANIMATION_DURATION_MS,
    FAST_ANIMATION_MS, SETTLE_DELAY_MS,
};

fn rect(left: i32, top: i32, right: i32, bottom: i32) -> WindowRect {
    WindowRect { left, top, right, bottom }
}

fn screen() -> ScreenSize {
    ScreenSize { width: 1920, height: 1080 }
}

fn saved() -> AnimationSettings {
    AnimationSettings { min_animate: 250 }
}

fn feed(pass: &mut AutomationPass, events: &[Event]) -> Vec<Action> {
    events.iter().map(|e| taskbar_automation(pass, *e)).collect()
}

#[test]
fn taskbar_size_bottom_taskbar() {
    let size = get_taskbar_size(screen(), rect(0, 0, 1920, 1040));
    assert_eq!(size, TaskbarSize { width: 0, height: 40 });
}

#[test]
fn taskbar_size_right_taskbar() {
    let size = get_taskbar_size(screen(), rect(0, 0, 1860, 1080));
    assert_eq!(size, TaskbarSize { width: 60, height: 0 });
}

#[test]
fn taskbar_size_top_taskbar() {
    let size = get_taskbar_size(screen(), rect(0, 40, 1920, 1080));
    assert_eq!(size, TaskbarSize { width: 0, height: 40 });
}

#[test]
fn taskbar_size_left_taskbar() {
    let size = get_taskbar_size(screen(), rect(60, 0, 1920, 1080));
    assert_eq!(size, TaskbarSize { width: 60, height: 0 });
}

#[test]
fn taskbar_size_clamps_too_tall_work_area() {
    let size = get_taskbar_size(screen(), rect(0, -100, 1920, 1000));
    assert_eq!(size, TaskbarSize { width: 0, height: 0 });
}

#[test]
fn taskbar_size_full_screen_is_zero() {
    let size = get_taskbar_size(screen(), rect(0, 0, 1920, 1080));
    assert_eq!(size, TaskbarSize { width: 0, height: 0 });
}

#[test]
fn taskbar_size_clamps_oversized_work_area() {
    let size = get_taskbar_size(screen(), rect(0, 0, 2000, 1200));
    assert_eq!(size, TaskbarSize { width: 0, height: 0 });
}

#[test]
fn taskbar_size_negative_work_area_edge() {
    let size = get_taskbar_size(ScreenSize { width: 10, height: 10 }, rect(0, 0, -5, -1));
    assert_eq!(size, TaskbarSize { width: 15, height: 11 });
}

#[test]
fn easing_endpoints_and_midpoint() {
    let d = ANIMATION_DURATION_MS;
    assert_eq!(ease_in_out_cubic(0, d), 0);
    assert_eq!(ease_in_out_cubic(d, d), d * d * d);
    assert_eq!(2 * ease_in_out_cubic(d / 2, d), d * d * d);
}

#[test]
fn easing_exact_values() {
    assert_eq!(ease_in_out_cubic(75, 300), 1_687_500);
    assert_eq!(ease_in_out_cubic(225, 300), 25_312_500);
    assert_eq!(ease_in_out_cubic(1, 2), 4);
    assert_eq!(ease_in_out_cubic(1, 3), 4);
    assert_eq!(ease_in_out_cubic(2, 3), 23);
}

#[test]
fn easing_symmetric_and_monotonic() {
    let d = ANIMATION_DURATION_MS;
    let full = d * d * d;
    let mut last = 0;
    for e in 0..=d {
        let v = ease_in_out_cubic(e, d);
        assert!(v >= last);
        assert!(v <= full);
        assert_eq!(v + ease_in_out_cubic(d - e, d), full);
        last = v;
    }
}

#[test]
fn easing_largest_duration() {
    let d = taskbar_autohide::MAX_EASING_DURATION;
    assert_eq!(ease_in_out_cubic(d, d), d * d * d);
    assert_eq!(ease_in_out_cubic(d / 2, d), d * d * d / 2);
}

#[test]
fn interpolate_expanding() {
    assert_eq!(interpolate(1040, 1080, 0, 300), 1040);
    assert_eq!(interpolate(1040, 1080, 150, 300), 1060);
    assert_eq!(interpolate(1040, 1080, 75, 300), 1042);
    assert_eq!(interpolate(1040, 1080, 300, 300), 1080);
}

#[test]
fn interpolate_contracting_truncates_toward_start() {
    assert_eq!(interpolate(1080, 1040, 75, 300), 1078);
    assert_eq!(interpolate(1080, 1040, 150, 300), 1060);
    assert_eq!(interpolate(1080, 1040, 300, 300), 1040);
}

#[test]
fn interpolate_extreme_positions() {
    assert_eq!(interpolate(i64::MIN, i64::MAX, 150, 300), -1);
    assert_eq!(interpolate(i64::MAX, i64::MIN, 300, 300), i64::MIN);
}

#[test]
fn selects_visible_zoomed_windows() {
    let ws = vec![
        WindowStatus { handle: WindowHandle { raw: 1 }, visible: true, zoomed: true },
        WindowStatus { handle: WindowHandle { raw: 2 }, visible: false, zoomed: true },
        WindowStatus { handle: WindowHandle { raw: 3 }, visible: true, zoomed: false },
        WindowStatus { handle: WindowHandle { raw: 4 }, visible: true, zoomed: true },
    ];
    assert_eq!(select_maximized(&ws), vec![WindowHandle { raw: 1 }, WindowHandle { raw: 4 }]);
    assert_eq!(select_maximized(&Vec::new()), Vec::<WindowHandle>::new());
}

#[test]
fn desired_state_follows_maximized() {
    assert_eq!(desired_state(true), AppbarState::AutoHide);
    assert_eq!(desired_state(false), AppbarState::AlwaysOnTop);
}

#[test]
fn fast_settings_shortens_animation() {
    assert_eq!(fast_settings(saved()), AnimationSettings { min_animate: FAST_ANIMATION_MS });
}

#[test]
fn animation_timing() {
    assert!(animation_running(0));
    assert!(animation_running(ANIMATION_DURATION_MS - 1));
    assert!(!animation_running(ANIMATION_DURATION_MS));
}

#[test]
fn placement_keeps_left_top_and_width() {
    let p = placement_for(rect(10, 20, 1910, 1040), 1080);
    assert_eq!(p, Some(Placement { x: 10, y: 20, width: 1900, height: 1060 }));
}

#[test]
fn placement_out_of_range_is_none() {
    assert_eq!(placement_for(rect(i32::MIN, 0, i32::MAX, 10), 10), None);
    assert_eq!(placement_for(rect(0, i32::MIN, 10, 0), i32::MAX as i64), None);
}

#[test]
fn no_maximized_windows_shows_taskbar() {
    let mut pass = AutomationPass::new();
    let actions = feed(
        &mut pass,
        &[
            Event::Begin,
            Event::WindowsEnumerated { maximized: 0 },
            Event::AppbarRead { state: AppbarState::AutoHide },
            Event::SettingsRead { settings: saved() },
            Event::SettingsWritten,
            Event::AppbarRead { state: AppbarState::AutoHide },
            Event::AppbarWritten,
            Event::Slept,
            Event::Animated,
            Event::SettingsWritten,
        ],
    );
    assert_eq!(
        actions,
        vec![
            Action::EnumerateWindows,
            Action::ReadAppbar,
            Action::ReadSettings,
            Action::WriteSettings { settings: AnimationSettings { min_animate: FAST_ANIMATION_MS } },
            Action::ReadAppbar,
            Action::WriteAppbar { state: AppbarState::AlwaysOnTop },
            Action::Sleep { ms: SETTLE_DELAY_MS },
            Action::Animate { expand: false },
            Action::WriteSettings { settings: saved() },
            Action::Done { completed: true },
        ]
    );
}

#[test]
fn contract_animation_moves_from_taskbar_to_work_area() {
    let work_area = rect(0, 0, 1920, 1040);
    let size = get_taskbar_size(screen(), work_area);
    let plan = AnimationPlan::new(false, size, work_area);
    assert_eq!(plan, AnimationPlan { start_bottom: 1080, end_bottom: 1040 });
    assert_eq!(plan.bottom_at(0), 1080);
    assert_eq!(plan.bottom_at(150), 1060);
    assert_eq!(plan.bottom_at(299), 1041);
    assert_eq!(plan.bottom_at(400), 1040);
    let windows = vec![TrackedWindow { handle: WindowHandle { raw: 7 }, rect: rect(0, 0, 1920, 1075) }];
    let moves = plan.final_targets(&windows, WindowHandle { raw: 99 }).unwrap();
    assert_eq!(
        moves,
        vec![WindowMove {
            handle: WindowHandle { raw: 7 },
            placement: Placement { x: 0, y: 0, width: 1920, height: 1040 },
        }]
    );
}

#[test]
fn one_maximized_window_hides_taskbar() {
    let mut pass = AutomationPass::new();
    let actions = feed(
        &mut pass,
        &[
            Event::Begin,
            Event::WindowsEnumerated { maximized: 1 },
            Event::AppbarRead { state: AppbarState::AlwaysOnTop },
            Event::SettingsRead { settings: saved() },
            Event::SettingsWritten,
            Event::AppbarRead { state: AppbarState::AlwaysOnTop },
            Event::AppbarWritten,
            Event::Slept,
        ],
    );
    assert_eq!(actions[5], Action::WriteAppbar { state: AppbarState::AutoHide });
    assert_eq!(actions[7], Action::Animate { expand: true });
}

#[test]
fn expand_animation_spares_desktop() {
    let work_area = rect(0, 0, 1920, 1040);
    let plan = AnimationPlan::new(true, TaskbarSize { width: 0, height: 40 }, work_area);
    assert_eq!(plan, AnimationPlan { start_bottom: 1040, end_bottom: 1080 });
    let desktop = WindowHandle { raw: 1 };
    let windows = vec![
        TrackedWindow { handle: desktop, rect: rect(0, 0, 1920, 1080) },
        TrackedWindow { handle: WindowHandle { raw: 2 }, rect: rect(-8, -8, 1928, 1048) },
    ];
    let frame = plan.frame_targets(&windows, desktop, 150).unwrap();
    assert_eq!(
        frame,
        vec![WindowMove {
            handle: WindowHandle { raw: 2 },
            placement: Placement { x: -8, y: -8, width: 1936, height: 1068 },
        }]
    );
    let last = plan.final_targets(&windows, desktop).unwrap();
    assert_eq!(last.len(), 1);
    assert_eq!(last[0].placement.y + last[0].placement.height, 1080);
}

#[test]
fn frame_with_unplaceable_window_is_none() {
    let plan = AnimationPlan { start_bottom: 0, end_bottom: 0 };
    let windows = vec![
        TrackedWindow { handle: WindowHandle { raw: 2 }, rect: rect(0, 0, 10, 10) },
        TrackedWindow { handle: WindowHandle { raw: 3 }, rect: rect(i32::MIN, 0, i32::MAX, 10) },
    ];
    assert_eq!(plan.frame_targets(&windows, WindowHandle { raw: 1 }, 0), None);
    assert_eq!(plan.final_targets(&windows, WindowHandle { raw: 3 }).map(|v| v.len()), Some(1));
}

#[test]
fn second_pass_is_idle() {
    let mut first = AutomationPass::new();
    let a1 = feed(
        &mut first,
        &[
            Event::Begin,
            Event::WindowsEnumerated { maximized: 2 },
            Event::AppbarRead { state: AppbarState::AlwaysOnTop },
            Event::SettingsRead { settings: saved() },
            Event::SettingsWritten,
            Event::AppbarRead { state: AppbarState::AlwaysOnTop },
        ],
    );
    assert_eq!(a1[5], Action::WriteAppbar { state: AppbarState::AutoHide });
    let mut second = AutomationPass::new();
    let a2 = feed(
        &mut second,
        &[
            Event::Begin,
            Event::WindowsEnumerated { maximized: 2 },
            Event::AppbarRead { state: AppbarState::AutoHide },
            Event::Begin,
        ],
    );
    assert_eq!(
        a2,
        vec![
            Action::EnumerateWindows,
            Action::ReadAppbar,
            Action::Done { completed: true },
            Action::Done { completed: true },
        ]
    );
}

#[test]
fn failure_mid_transition_restores_settings() {
    let mut pass = AutomationPass::new();
    let actions = feed(
        &mut pass,
        &[
            Event::Begin,
            Event::WindowsEnumerated { maximized: 1 },
            Event::AppbarRead { state: AppbarState::AlwaysOnTop },
            Event::SettingsRead { settings: saved() },
            Event::SettingsWritten,
            Event::AppbarRead { state: AppbarState::AlwaysOnTop },
            Event::Failed,
            Event::SettingsWritten,
        ],
    );
    assert_eq!(actions[6], Action::WriteSettings { settings: saved() });
    assert_eq!(actions[7], Action::Done { completed: false });
}

#[test]
fn failure_before_saving_finishes_without_writes() {
    let mut pass = AutomationPass::new();
    let actions = feed(&mut pass, &[Event::Begin, Event::Failed, Event::Slept]);
    assert_eq!(
        actions,
        vec![
            Action::EnumerateWindows,
            Action::Done { completed: false },
            Action::Done { completed: false },
        ]
    );
}

#[test]
fn failed_restore_reports_failure() {
    let mut pass = AutomationPass::new();
    let actions = feed(
        &mut pass,
        &[
            Event::Begin,
            Event::WindowsEnumerated { maximized: 0 },
            Event::AppbarRead { state: AppbarState::Other { raw: 3 } },
            Event::SettingsRead { settings: saved() },
            Event::SettingsWritten,
            Event::AppbarRead { state: AppbarState::AlwaysOnTop },
            Event::Failed,
        ],
    );
    assert_eq!(actions[5], Action::WriteSettings { settings: saved() });
    assert_eq!(actions[6], Action::Done { completed: false });
}

#[test]
fn unexpected_event_aborts_and_restores() {
    let mut pass = AutomationPass::new();
    let actions = feed(
        &mut pass,
        &[
            Event::Begin,
            Event::WindowsEnumerated { maximized: 1 },
            Event::AppbarRead { state: AppbarState::AlwaysOnTop },
            Event::SettingsRead { settings: saved() },
            Event::Slept,
            Event::SettingsWritten,
        ],
    );
    assert_eq!(actions[4], Action::WriteSettings { settings: saved() });
    assert_eq!(actions[5], Action::Done { completed: false });
}

#[test]
fn no_taskbar_means_no_motion() {
    let work_area = rect(0, 0, 1920, 1080);
    let size = get_taskbar_size(screen(), work_area);
    assert_eq!(size.height, 0);
    for expand in [true, false] {
        let plan = AnimationPlan::new(expand, size, work_area);
        assert_eq!(plan.start_bottom, plan.end_bottom);
        let mut e = 0;
        while animation_running(e) {
            assert_eq!(plan.bottom_at(e), 1080);
            e += 16;
        }
        assert_eq!(plan.bottom_at(e), 1080);
    }
    let mut pass = AutomationPass::new();
    let actions = feed(
        &mut pass,
        &[
            Event::Begin,
            Event::WindowsEnumerated { maximized: 1 },
            Event::AppbarRead { state: AppbarState::AlwaysOnTop },
            Event::SettingsRead { settings: saved() },
            Event::SettingsWritten,
            Event::AppbarRead { state: AppbarState::AlwaysOnTop },
            Event::AppbarWritten,
            Event::Slept,
            Event::Animated,
            Event::SettingsWritten,
        ],
    );
    assert_eq!(actions[8], Action::WriteSettings { settings: saved() });
    assert_eq!(actions[9], Action::Done { completed: true });
}

#[test]
fn state_already_right_at_recheck_restores() {
    let mut pass = AutomationPass::new();
    let actions = feed(
        &mut pass,
        &[
            Event::Begin,
            Event::WindowsEnumerated { maximized: 0 },
            Event::AppbarRead { state: AppbarState::AutoHide },
            Event::SettingsRead { settings: saved() },
            Event::SettingsWritten,
            Event::AppbarRead { state: AppbarState::AlwaysOnTop },
            Event::SettingsWritten,
        ],
    );
    assert_eq!(actions[5], Action::WriteSettings { settings: saved() });
    assert_eq!(actions[6], Action::Done { completed: true });
}
