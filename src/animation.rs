use crate::easing::{eased, interpolate, interpolated, lemma_ease_endpoints};
use crate::geometry::{TaskbarSize, WindowHandle, WindowRect};
use vstd::prelude::*;

verus! {

/// Length of the window animation, in milliseconds.
pub const ANIMATION_DURATION_MS: u64 = 300;

/// Pause between two frames of the window animation, in milliseconds.
pub const FRAME_INTERVAL_MS: u64 = 16;

/// A top-level window as enumeration reports it.
#[derive(Clone, Copy, Debug, PartialEq, Eq, Structural)]
pub struct WindowStatus {
    pub handle: WindowHandle,
    pub visible: bool,
    pub zoomed: bool,
}

/// A window to be moved, with its rectangle as read in the current frame.
#[derive(Clone, Copy, Debug, PartialEq, Eq, Structural)]
pub struct TrackedWindow {
    pub handle: WindowHandle,
    pub rect: WindowRect,
}

/// Position and size to give a window: its left and top edges and its extent.
#[derive(Clone, Copy, Debug, PartialEq, Eq, Structural)]
pub struct Placement {
    pub x: i32,
    pub y: i32,
    pub width: i32,
    pub height: i32,
}

/// One repositioning of one window.
#[derive(Clone, Copy, Debug, PartialEq, Eq, Structural)]
pub struct WindowMove {
    pub handle: WindowHandle,
    pub placement: Placement,
}

/// Where the bottom edge of every animated window starts and where it ends.
#[derive(Clone, Copy, Debug, PartialEq, Eq, Structural)]
pub struct AnimationPlan {
    pub start_bottom: i64,
    pub end_bottom: i64,
}

/// The windows that count as maximized: visible and zoomed, in enumeration order.
pub open spec fn maximized_of(windows: Seq<WindowStatus>) -> Seq<WindowHandle>
    decreases windows.len(),
{
    if windows.len() == 0 {
        seq![]
    } else {
        let rest = maximized_of(windows.drop_last());
        let w = windows.last();
        if w.visible && w.zoomed {
            rest.push(w.handle)
        } else {
            rest
        }
    }
}

/// The plan of an animation: when the taskbar hides, windows expand from the
/// work area's bottom by the taskbar's height; when it shows, they shrink back.
pub open spec fn plan_of(expand: bool, taskbar: TaskbarSize, work_area: WindowRect) -> AnimationPlan {
    let low = work_area.bottom as int;
    let high = work_area.bottom as int + taskbar.height as int;
    if expand {
        AnimationPlan { start_bottom: low as i64, end_bottom: high as i64 }
    } else {
        AnimationPlan { start_bottom: high as i64, end_bottom: low as i64 }
    }
}

/// The bottom edge at `elapsed` milliseconds into the animation; from the
/// animation's end on it is the end position.
pub open spec fn bottom_at(plan: AnimationPlan, elapsed: int) -> int {
    if elapsed < ANIMATION_DURATION_MS {
        interpolated(
            plan.start_bottom as int,
            plan.end_bottom as int,
            elapsed,
            ANIMATION_DURATION_MS as int,
        )
    } else {
        plan.end_bottom as int
    }
}

pub open spec fn fits_i32(v: int) -> bool {
    i32::MIN <= v <= i32::MAX
}

/// A window keeps its left and top edges and its width; only its bottom edge
/// moves. There is no placement where the extent does not fit in 32 bits.
pub open spec fn placement_of(rect: WindowRect, bottom: int) -> Option<Placement> {
    let width = rect.right - rect.left;
    let height = bottom - rect.top;
    if fits_i32(width) && fits_i32(height) {
        Some(Placement { x: rect.left, y: rect.top, width: width as i32, height: height as i32 })
    } else {
        None
    }
}

/// The moves that bring every window but the desktop to `bottom`, in order;
/// none if some window cannot be placed there.
pub open spec fn moves_of(windows: Seq<TrackedWindow>, desktop: WindowHandle, bottom: int) -> Option<
    Seq<WindowMove>,
>
    decreases windows.len(),
{
    if windows.len() == 0 {
        Some(seq![])
    } else {
        match moves_of(windows.drop_last(), desktop, bottom) {
            None => None,
            Some(prev) => {
                let w = windows.last();
                if w.handle == desktop {
                    Some(prev)
                } else {
                    match placement_of(w.rect, bottom) {
                        None => None,
                        Some(p) => Some(prev.push(WindowMove { handle: w.handle, placement: p })),
                    }
                }
            },
        }
    }
}

/// Keeps the windows that are visible and maximized.
pub fn select_maximized(windows: &Vec<WindowStatus>) -> (r: Vec<WindowHandle>)
    ensures
        r@ == maximized_of(windows@),
{
    let mut out: Vec<WindowHandle> = Vec::new();
    let mut i: usize = 0;
    while i < windows.len()
        invariant
            i <= windows@.len(),
            out@ == maximized_of(windows@.take(i as int)),
        decreases windows@.len() - i,
    {
        let w = windows[i];
        assert(windows@.take(i + 1).drop_last() =~= windows@.take(i as int));
        if w.visible && w.zoomed {
            out.push(w.handle);
        }
        i = i + 1;
    }
    assert(windows@.take(i as int) =~= windows@);
    out
}

/// Whether the timed part of the animation is still running after `elapsed`
/// milliseconds.
pub fn animation_running(elapsed_ms: u64) -> (r: bool)
    ensures
        r == (elapsed_ms < ANIMATION_DURATION_MS),
{
    elapsed_ms < ANIMATION_DURATION_MS
}

/// The placement that gives `rect` the bottom edge `bottom`.
pub fn placement_for(rect: WindowRect, bottom: i64) -> (r: Option<Placement>)
    ensures
        r == placement_of(rect, bottom as int),
{
    let width: i64 = rect.right as i64 - rect.left as i64;
    let height: i128 = bottom as i128 - rect.top as i128;
    if i32::MIN as i64 <= width && width <= i32::MAX as i64 && i32::MIN as i128 <= height && height
        <= i32::MAX as i128 {
        Some(Placement { x: rect.left, y: rect.top, width: width as i32, height: height as i32 })
    } else {
        None
    }
}

proof fn lemma_moves_stay_absent(windows: Seq<TrackedWindow>, desktop: WindowHandle, bottom: int, i: int)
    requires
        0 <= i <= windows.len(),
        moves_of(windows.take(i), desktop, bottom) is None,
    ensures
        moves_of(windows, desktop, bottom) is None,
    decreases windows.len() - i,
{
    if i < windows.len() {
        assert(windows.take(i + 1).drop_last() =~= windows.take(i));
        lemma_moves_stay_absent(windows, desktop, bottom, i + 1);
    } else {
        assert(windows.take(i) =~= windows);
    }
}

fn moves_to(windows: &Vec<TrackedWindow>, desktop: WindowHandle, bottom: i64) -> (r: Option<
    Vec<WindowMove>,
>)
    ensures
        match r {
            Some(v) => moves_of(windows@, desktop, bottom as int) == Some(v@),
            None => moves_of(windows@, desktop, bottom as int) is None,
        },
{
    let mut out: Vec<WindowMove> = Vec::new();
    let mut i: usize = 0;
    while i < windows.len()
        invariant
            i <= windows@.len(),
            moves_of(windows@.take(i as int), desktop, bottom as int) == Some(out@),
        decreases windows@.len() - i,
    {
        let w = windows[i];
        assert(windows@.take(i + 1).drop_last() =~= windows@.take(i as int));
        if w.handle != desktop {
            match placement_for(w.rect, bottom) {
                Some(p) => {
                    out.push(WindowMove { handle: w.handle, placement: p });
                },
                None => {
                    proof {
                        lemma_moves_stay_absent(windows@, desktop, bottom as int, i + 1);
                    }
                    return None;
                },
            }
        }
        i = i + 1;
    }
    assert(windows@.take(i as int) =~= windows@);
    Some(out)
}

impl AnimationPlan {
    /// Plans the animation of maximized windows for a taskbar of the given size
    /// over the given work area.
    pub fn new(expand: bool, taskbar: TaskbarSize, work_area: WindowRect) -> (r: AnimationPlan)
        requires
            work_area.bottom + taskbar.height <= i64::MAX,
        ensures
            r == plan_of(expand, taskbar, work_area),
    {
        let low: i64 = work_area.bottom as i64;
        let high: i64 = (work_area.bottom as i128 + taskbar.height as i128) as i64;
        if expand {
            AnimationPlan { start_bottom: low, end_bottom: high }
        } else {
            AnimationPlan { start_bottom: high, end_bottom: low }
        }
    }

    /// The bottom edge of every animated window `elapsed_ms` into the animation.
    pub fn bottom_at(&self, elapsed_ms: u64) -> (r: i64)
        ensures
            r == bottom_at(*self, elapsed_ms as int),
    {
        if elapsed_ms < ANIMATION_DURATION_MS {
            interpolate(self.start_bottom, self.end_bottom, elapsed_ms, ANIMATION_DURATION_MS)
        } else {
            self.end_bottom
        }
    }

    /// The moves of one frame, `elapsed_ms` into the animation: every window but
    /// the desktop gets the frame's bottom edge and keeps its left, top and
    /// width as read now.
    pub fn frame_targets(&self, windows: &Vec<TrackedWindow>, desktop: WindowHandle, elapsed_ms: u64) -> (r: Option<Vec<WindowMove>>)
        ensures
            match r {
                Some(v) => moves_of(windows@, desktop, bottom_at(*self, elapsed_ms as int)) == Some(v@),
                None => moves_of(windows@, desktop, bottom_at(*self, elapsed_ms as int)) is None,
            },
    {
        let bottom = self.bottom_at(elapsed_ms);
        moves_to(windows, desktop, bottom)
    }

    /// The closing moves, which pin every window but the desktop to the end
    /// position exactly.
    pub fn final_targets(&self, windows: &Vec<TrackedWindow>, desktop: WindowHandle) -> (r: Option<Vec<WindowMove>>)
        ensures
            match r {
                Some(v) => moves_of(windows@, desktop, self.end_bottom as int) == Some(v@),
                None => moves_of(windows@, desktop, self.end_bottom as int) is None,
            },
    {
        moves_to(windows, desktop, self.end_bottom)
    }
}

/// The animation starts where its plan starts, and from its end on every
/// window sits exactly at the plan's end.
pub proof fn lemma_animation_endpoints(plan: AnimationPlan, elapsed: int)
    ensures
        bottom_at(plan, 0) == plan.start_bottom,
        elapsed >= ANIMATION_DURATION_MS ==> bottom_at(plan, elapsed) == plan.end_bottom,
{
    lemma_ease_endpoints(ANIMATION_DURATION_MS as int);
    assert(eased(0, ANIMATION_DURATION_MS as int) == 0);
}

/// Without a taskbar the animation still has a start and an end, but they
/// coincide at the work area's bottom: no window moves in any frame.
pub proof fn lemma_no_taskbar_no_motion(
    expand: bool,
    taskbar: TaskbarSize,
    work_area: WindowRect,
    elapsed: int,
)
    requires
        taskbar.height == 0,
        0 <= elapsed,
    ensures
        plan_of(expand, taskbar, work_area).start_bottom == work_area.bottom,
        plan_of(expand, taskbar, work_area).end_bottom == work_area.bottom,
        bottom_at(plan_of(expand, taskbar, work_area), elapsed) == work_area.bottom,
{
}

/// The moves of a frame never touch the desktop window, give every other
/// window the frame's bottom edge, and keep its left and top edges.
pub proof fn lemma_moves_spare_desktop(
    windows: Seq<TrackedWindow>,
    desktop: WindowHandle,
    bottom: int,
)
    requires
        moves_of(windows, desktop, bottom) is Some,
    ensures
        forall|k: int|
            0 <= k < moves_of(windows, desktop, bottom)->0.len() ==> {
                let m = #[trigger] moves_of(windows, desktop, bottom)->0[k];
                &&& m.handle != desktop
                &&& m.placement.y + m.placement.height == bottom
                &&& exists|j: int|
                    0 <= j < windows.len() && windows[j].handle == m.handle && windows[j].rect.left
                        == m.placement.x && windows[j].rect.top == m.placement.y
            },
    decreases windows.len(),
{
    if windows.len() > 0 {
        let init = windows.drop_last();
        lemma_moves_spare_desktop(init, desktop, bottom);
        let prev = moves_of(init, desktop, bottom)->0;
        let ms = moves_of(windows, desktop, bottom)->0;
        assert forall|k: int| 0 <= k < ms.len() implies {
            let m = #[trigger] ms[k];
            &&& m.handle != desktop
            &&& m.placement.y + m.placement.height == bottom
            &&& exists|j: int|
                0 <= j < windows.len() && windows[j].handle == m.handle && windows[j].rect.left
                    == m.placement.x && windows[j].rect.top == m.placement.y
        } by {
            if k < prev.len() {
                assert(ms[k] == prev[k]);
                let j = choose|j: int|
                    0 <= j < init.len() && init[j].handle == prev[k].handle && init[j].rect.left
                        == prev[k].placement.x && init[j].rect.top == prev[k].placement.y;
                assert(windows[j] == init[j]);
            } else {
                assert(windows[windows.len() - 1] == windows.last());
            }
        }
    }
}

} // verus!
