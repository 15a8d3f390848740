use vstd::prelude::*;

verus! {

/// Identifies a native top-level window. The operating system owns the window;
/// this library only compares and hands back the identifier.
#[derive(Clone, Copy, Debug, PartialEq, Eq, Structural)]
pub struct WindowHandle {
    pub raw: usize,
}

/// A rectangle in screen-pixel coordinates.
#[derive(Clone, Copy, Debug, PartialEq, Eq, Structural)]
pub struct WindowRect {
    pub left: i32,
    pub top: i32,
    pub right: i32,
    pub bottom: i32,
}

/// The physical resolution of the primary display.
#[derive(Clone, Copy, Debug, PartialEq, Eq, Structural)]
pub struct ScreenSize {
    pub width: u32,
    pub height: u32,
}

/// Thickness of the taskbar along each axis, in pixels.
#[derive(Clone, Copy, Debug, PartialEq, Eq, Structural)]
pub struct TaskbarSize {
    pub width: u64,
    pub height: u64,
}

/// How far `outer` reaches past `inner`, or zero where it does not.
pub open spec fn clamped_gap(outer: int, inner: int) -> int {
    if outer > inner {
        outer - inner
    } else {
        0
    }
}

/// The taskbar's thickness: the screen's size minus the work area's size
/// along each axis, never below zero.
pub open spec fn taskbar_size_of(screen: ScreenSize, work_area: WindowRect) -> TaskbarSize {
    TaskbarSize {
        width: clamped_gap(screen.width as int, work_area.right - work_area.left) as u64,
        height: clamped_gap(screen.height as int, work_area.bottom - work_area.top) as u64,
    }
}

/// The work area lies inside the screen (or covers it exactly).
pub open spec fn contained_in(work_area: WindowRect, screen: ScreenSize) -> bool {
    &&& 0 <= work_area.left <= work_area.right <= screen.width
    &&& 0 <= work_area.top <= work_area.bottom <= screen.height
}

/// The work area covers the whole screen.
pub open spec fn covers_screen(work_area: WindowRect, screen: ScreenSize) -> bool {
    &&& work_area.left == 0
    &&& work_area.top == 0
    &&& work_area.right == screen.width
    &&& work_area.bottom == screen.height
}

fn clamped_gap_exec(outer: u32, low: i32, high: i32) -> (r: u64)
    ensures
        r == clamped_gap(outer as int, high - low),
{
    let o: i64 = outer as i64;
    let extent: i64 = high as i64 - low as i64;
    if o > extent {
        (o - extent) as u64
    } else {
        0
    }
}

/// Measures the taskbar from the screen resolution and the work area: how much
/// shorter the work area is than the screen along each axis, clamped to zero.
pub fn get_taskbar_size(screen: ScreenSize, work_area: WindowRect) -> (r: TaskbarSize)
    ensures
        r == taskbar_size_of(screen, work_area),
{
    TaskbarSize {
        width: clamped_gap_exec(screen.width, work_area.left, work_area.right),
        height: clamped_gap_exec(screen.height, work_area.top, work_area.bottom),
    }
}

/// For a work area inside the screen, each thickness is the plain difference
/// of the screen's and the work area's sizes, whichever edge the taskbar is
/// docked at, and the taskbar measures zero on both axes exactly when the work
/// area covers the screen.
pub proof fn lemma_taskbar_size_within_screen(screen: ScreenSize, work_area: WindowRect)
    requires
        contained_in(work_area, screen),
    ensures
        taskbar_size_of(screen, work_area).width == screen.width - (work_area.right
            - work_area.left),
        taskbar_size_of(screen, work_area).height == screen.height - (work_area.bottom
            - work_area.top),
        (taskbar_size_of(screen, work_area) == TaskbarSize { width: 0, height: 0 })
            <==> covers_screen(work_area, screen),
{
}

} // verus!
