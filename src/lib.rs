//! Keeps the Windows taskbar out of the way of maximized windows: the
//! decisions of one observe-and-correct pass, the taskbar's measurement, and
//! the eased animation that moves maximized windows' bottom edges while the
//! taskbar hides or shows. The caller performs the system calls.

pub mod animation;
pub mod automation;
pub mod easing;
pub mod geometry;

pub use animation::{
    animation_running, placement_for, select_maximized, AnimationPlan, Placement, TrackedWindow,
    WindowMove, WindowStatus, ANIMATION_DURATION_MS, FRAME_INTERVAL_MS,
};
pub use automation::{
    desired_state, fast_settings, taskbar_automation, Action, AnimationSettings, AppbarState,
    AutomationPass, Event, Phase, FAST_ANIMATION_MS, SETTLE_DELAY_MS,
};
pub use easing::{ease_in_out_cubic, interpolate, MAX_EASING_DURATION};
pub use geometry::{get_taskbar_size, ScreenSize, TaskbarSize, WindowHandle, WindowRect};
