use vstd::prelude::*;

verus! {

/// Animation length, in milliseconds, that the system is set to while the
/// taskbar changes state, so that its own slide stays short.
pub const FAST_ANIMATION_MS: i32 = 100;

/// Pause after switching the taskbar's state, so that its own slide has begun
/// before the windows start moving.
pub const SETTLE_DELAY_MS: u64 = 50;

/// Docking behaviour of the taskbar.
#[derive(Clone, Copy, Debug, PartialEq, Eq, Structural)]
pub enum AppbarState {
    AutoHide,
    AlwaysOnTop,
    /// Any other state the system reports, by its raw value.
    Other { raw: u32 },
}

/// The system-wide window animation setting.
#[derive(Clone, Copy, Debug, PartialEq, Eq, Structural)]
pub struct AnimationSettings {
    pub min_animate: i32,
}

/// Where a pass stands: each phase waits for the outcome of one action.
#[derive(Clone, Copy, Debug, PartialEq, Eq, Structural)]
pub enum Phase {
    Idle,
    Enumerating,
    Checking,
    Saving,
    Overriding,
    Rechecking,
    Switching,
    Settling,
    Animating,
    Restoring,
    Finished,
}

/// What the system answered to the last action.
#[derive(Clone, Copy, Debug, PartialEq, Eq, Structural)]
pub enum Event {
    /// Starts the pass.
    Begin,
    /// The top-level windows were enumerated; this many are visible and maximized.
    WindowsEnumerated { maximized: usize },
    SettingsRead { settings: AnimationSettings },
    SettingsWritten,
    AppbarRead { state: AppbarState },
    AppbarWritten,
    Slept,
    /// The window animation ran to its end.
    Animated,
    /// The last action did not succeed.
    Failed,
}

/// What the caller performs next on behalf of the pass.
#[derive(Clone, Copy, Debug, PartialEq, Eq, Structural)]
pub enum Action {
    EnumerateWindows,
    ReadAppbar,
    ReadSettings,
    WriteSettings { settings: AnimationSettings },
    WriteAppbar { state: AppbarState },
    Sleep { ms: u64 },
    /// Runs the window animation; windows grow when `expand` holds and shrink
    /// otherwise.
    Animate { expand: bool },
    /// The pass is over; `completed` is false where some step failed.
    Done { completed: bool },
}

/// One observe-and-correct pass over the taskbar. `target` is the state the
/// windows ask for, `saved` the animation setting read at the start of a
/// transition, and `failed` records that some step failed.
#[derive(Clone, Copy, Debug)]
pub struct AutomationPass {
    pub phase: Phase,
    pub target: AppbarState,
    pub saved: Option<AnimationSettings>,
    pub failed: bool,
}

/// The taskbar hides while some window is maximized and stays on top otherwise.
pub open spec fn desired_state_of(any_maximized: bool) -> AppbarState {
    if any_maximized {
        AppbarState::AutoHide
    } else {
        AppbarState::AlwaysOnTop
    }
}

/// The setting used while the taskbar changes state: the saved one with a
/// short animation.
pub open spec fn fast_settings_of(saved: AnimationSettings) -> AnimationSettings {
    AnimationSettings { min_animate: FAST_ANIMATION_MS, ..saved }
}

pub open spec fn idle_pass() -> AutomationPass {
    AutomationPass {
        phase: Phase::Idle,
        target: AppbarState::AlwaysOnTop,
        saved: None,
        failed: false,
    }
}

/// Ends the transition: puts back the saved animation setting, or finishes at
/// once where none was saved.
pub open spec fn wind_up(p: AutomationPass, failed: bool) -> (AutomationPass, Action) {
    match p.saved {
        Some(s) => (
            AutomationPass { phase: Phase::Restoring, failed, ..p },
            Action::WriteSettings { settings: s },
        ),
        None => (
            AutomationPass { phase: Phase::Finished, failed, ..p },
            Action::Done { completed: !failed },
        ),
    }
}

/// The step on an unexpected event or a failure.
pub open spec fn abort(p: AutomationPass) -> (AutomationPass, Action) {
    wind_up(p, true)
}

pub open spec fn moved_to(p: AutomationPass, phase: Phase, action: Action) -> (AutomationPass, Action) {
    (AutomationPass { phase, ..p }, action)
}

/// The pass's decisions: the next pass and the action to perform, given the
/// outcome of the last action.
pub open spec fn step_of(p: AutomationPass, e: Event) -> (AutomationPass, Action) {
    match (p.phase, e) {
        (Phase::Idle, Event::Begin) => moved_to(p, Phase::Enumerating, Action::EnumerateWindows),
        (Phase::Enumerating, Event::WindowsEnumerated { maximized }) => (
            AutomationPass {
                phase: Phase::Checking,
                target: desired_state_of(maximized > 0),
                ..p
            },
            Action::ReadAppbar,
        ),
        (Phase::Checking, Event::AppbarRead { state }) => if state == p.target {
            moved_to(p, Phase::Finished, Action::Done { completed: true })
        } else {
            moved_to(p, Phase::Saving, Action::ReadSettings)
        },
        (Phase::Saving, Event::SettingsRead { settings }) => (
            AutomationPass { phase: Phase::Overriding, saved: Some(settings), ..p },
            Action::WriteSettings { settings: fast_settings_of(settings) },
        ),
        (Phase::Overriding, Event::SettingsWritten) => moved_to(
            p,
            Phase::Rechecking,
            Action::ReadAppbar,
        ),
        (Phase::Rechecking, Event::AppbarRead { state }) => if state == p.target {
            wind_up(p, false)
        } else {
            moved_to(p, Phase::Switching, Action::WriteAppbar { state: p.target })
        },
        (Phase::Switching, Event::AppbarWritten) => moved_to(
            p,
            Phase::Settling,
            Action::Sleep { ms: SETTLE_DELAY_MS },
        ),
        (Phase::Settling, Event::Slept) => moved_to(
            p,
            Phase::Animating,
            Action::Animate { expand: p.target == AppbarState::AutoHide },
        ),
        (Phase::Animating, Event::Animated) => wind_up(p, false),
        (Phase::Restoring, Event::SettingsWritten) => moved_to(
            p,
            Phase::Finished,
            Action::Done { completed: !p.failed },
        ),
        (Phase::Restoring, _) => (
            AutomationPass { phase: Phase::Finished, failed: true, ..p },
            Action::Done { completed: false },
        ),
        (Phase::Finished, _) => (p, Action::Done { completed: !p.failed }),
        _ => abort(p),
    }
}

/// Which state the taskbar should be in.
pub fn desired_state(any_maximized: bool) -> (r: AppbarState)
    ensures
        r == desired_state_of(any_maximized),
{
    if any_maximized {
        AppbarState::AutoHide
    } else {
        AppbarState::AlwaysOnTop
    }
}

/// The animation setting used while the taskbar changes state.
pub fn fast_settings(saved: AnimationSettings) -> (r: AnimationSettings)
    ensures
        r == fast_settings_of(saved),
{
    AnimationSettings { min_animate: FAST_ANIMATION_MS, ..saved }
}

impl AutomationPass {
    /// A pass that waits for `Event::Begin`.
    pub fn new() -> (r: AutomationPass)
        ensures
            r == idle_pass(),
            well_formed(r),
    {
        AutomationPass {
            phase: Phase::Idle,
            target: AppbarState::AlwaysOnTop,
            saved: None,
            failed: false,
        }
    }

    fn wind_up(&mut self, failed: bool) -> (r: Action)
        ensures
            (*final(self), r) == wind_up(*old(self), failed),
    {
        self.failed = failed;
        match self.saved {
            Some(s) => {
                self.phase = Phase::Restoring;
                Action::WriteSettings { settings: s }
            },
            None => {
                self.phase = Phase::Finished;
                Action::Done { completed: !failed }
            },
        }
    }
}

/// Advances the pass by one outcome and returns the next action. A pass first
/// enumerates the windows and reads the taskbar's state; only where the state
/// differs from the one the windows ask for does it save the animation setting,
/// shorten it, switch the taskbar, wait, animate the windows, and put the saved
/// setting back, which it does also when a step in between fails.
pub fn taskbar_automation(pass: &mut AutomationPass, event: Event) -> (r: Action)
    ensures
        (*final(pass), r) == step_of(*old(pass), event),
        well_formed(*old(pass)) ==> well_formed(*final(pass)),
{
    proof {
        if well_formed(*pass) {
            lemma_step_well_formed(*pass, event);
        }
    }
    match (pass.phase, event) {
        (Phase::Idle, Event::Begin) => {
            pass.phase = Phase::Enumerating;
            Action::EnumerateWindows
        },
        (Phase::Enumerating, Event::WindowsEnumerated { maximized }) => {
            pass.phase = Phase::Checking;
            pass.target = desired_state(maximized > 0);
            Action::ReadAppbar
        },
        (Phase::Checking, Event::AppbarRead { state }) => {
            if state == pass.target {
                pass.phase = Phase::Finished;
                Action::Done { completed: true }
            } else {
                pass.phase = Phase::Saving;
                Action::ReadSettings
            }
        },
        (Phase::Saving, Event::SettingsRead { settings }) => {
            pass.phase = Phase::Overriding;
            pass.saved = Some(settings);
            Action::WriteSettings { settings: fast_settings(settings) }
        },
        (Phase::Overriding, Event::SettingsWritten) => {
            pass.phase = Phase::Rechecking;
            Action::ReadAppbar
        },
        (Phase::Rechecking, Event::AppbarRead { state }) => {
            if state == pass.target {
                pass.wind_up(false)
            } else {
                pass.phase = Phase::Switching;
                Action::WriteAppbar { state: pass.target }
            }
        },
        (Phase::Switching, Event::AppbarWritten) => {
            pass.phase = Phase::Settling;
            Action::Sleep { ms: SETTLE_DELAY_MS }
        },
        (Phase::Settling, Event::Slept) => {
            pass.phase = Phase::Animating;
            Action::Animate { expand: pass.target == AppbarState::AutoHide }
        },
        (Phase::Animating, Event::Animated) => pass.wind_up(false),
        (Phase::Restoring, Event::SettingsWritten) => {
            pass.phase = Phase::Finished;
            Action::Done { completed: !pass.failed }
        },
        (Phase::Restoring, _) => {
            pass.phase = Phase::Finished;
            pass.failed = true;
            Action::Done { completed: false }
        },
        (Phase::Finished, _) => Action::Done { completed: !pass.failed },
        _ => pass.wind_up(true),
    }
}

/// Feeds the events to the pass one by one: the pass at the end and the
/// actions it asked for, in order.
pub open spec fn run(p: AutomationPass, events: Seq<Event>) -> (AutomationPass, Seq<Action>)
    decreases events.len(),
{
    if events.len() == 0 {
        (p, seq![])
    } else {
        let (next, first) = step_of(p, events[0]);
        let (last, rest) = run(next, events.drop_first());
        (last, seq![first] + rest)
    }
}

pub open spec fn settings_written(a: Action) -> Option<AnimationSettings> {
    match a {
        Action::WriteSettings { settings } => Some(settings),
        _ => None,
    }
}

pub open spec fn appbar_written(a: Action) -> Option<AppbarState> {
    match a {
        Action::WriteAppbar { state } => Some(state),
        _ => None,
    }
}

/// The animation setting written last among the actions, if any was written.
pub open spec fn last_settings_write(actions: Seq<Action>) -> Option<AnimationSettings>
    decreases actions.len(),
{
    if actions.len() == 0 {
        None
    } else {
        let later = last_settings_write(actions.drop_first());
        if later is Some {
            later
        } else {
            settings_written(actions[0])
        }
    }
}

/// Nothing is saved before the transition starts, and something is saved
/// from then until the setting has been put back.
pub open spec fn well_formed(p: AutomationPass) -> bool {
    match p.phase {
        Phase::Idle | Phase::Enumerating | Phase::Checking | Phase::Saving => p.saved is None,
        Phase::Finished => true,
        _ => p.saved is Some,
    }
}

pub open spec fn winding_up(phase: Phase) -> bool {
    phase == Phase::Restoring || phase == Phase::Finished
}

proof fn lemma_step_well_formed(p: AutomationPass, e: Event)
    requires
        well_formed(p),
    ensures
        well_formed(step_of(p, e).0),
        winding_up(p.phase) ==> winding_up(step_of(p, e).0.phase) && step_of(p, e).0.saved
            == p.saved && settings_written(step_of(p, e).1) is None,
        winding_up(step_of(p, e).0.phase) && !winding_up(p.phase) && step_of(p, e).0.saved is Some
            ==> settings_written(step_of(p, e).1) == step_of(p, e).0.saved,
        p.saved is Some ==> step_of(p, e).0.saved == p.saved,
{
}

proof fn lemma_run_restores(p: AutomationPass, events: Seq<Event>)
    requires
        well_formed(p),
    ensures
        ({
            let (q, actions) = run(p, events);
            q.phase == Phase::Finished && q.saved is Some ==> last_settings_write(actions)
                == q.saved || (last_settings_write(actions) is None && winding_up(p.phase)
                && q.saved == p.saved)
        }),
    decreases events.len(),
{
    if events.len() > 0 {
        let (next, first) = step_of(p, events[0]);
        let (q, rest) = run(next, events.drop_first());
        lemma_step_well_formed(p, events[0]);
        lemma_run_restores(next, events.drop_first());
        let actions = seq![first] + rest;
        assert(actions.drop_first() =~= rest);
        assert(actions[0] == first);
        if q.phase == Phase::Finished && q.saved is Some {
            if last_settings_write(rest) is None && winding_up(next.phase) && q.saved
                == next.saved && !winding_up(p.phase) {
                assert(settings_written(first) == q.saved);
            }
        }
    }
}

/// A finished pass that saved the animation setting has written that same
/// setting back last, whatever the system answered along the way, failures
/// included.
pub proof fn lemma_settings_restored(events: Seq<Event>)
    ensures
        ({
            let (q, actions) = run(idle_pass(), events);
            q.phase == Phase::Finished && q.saved is Some ==> last_settings_write(actions)
                == q.saved
        }),
{
    lemma_run_restores(idle_pass(), events);
}

pub open spec fn past_enumeration(phase: Phase) -> bool {
    phase != Phase::Idle && phase != Phase::Enumerating
}

proof fn lemma_run_writes_target(p: AutomationPass, events: Seq<Event>)
    requires
        past_enumeration(p.phase),
    ensures
        forall|i: int|
            0 <= i < run(p, events).1.len() ==> #[trigger] appbar_written(run(p, events).1[i])
                is None || appbar_written(run(p, events).1[i]) == Some(p.target),
    decreases events.len(),
{
    if events.len() > 0 {
        let (next, first) = step_of(p, events[0]);
        lemma_run_writes_target(next, events.drop_first());
    }
}

proof fn lemma_finished_run_is_quiet(p: AutomationPass, events: Seq<Event>)
    requires
        p.phase == Phase::Finished,
        !p.failed,
    ensures
        forall|i: int|
            0 <= i < run(p, events).1.len() ==> #[trigger] run(p, events).1[i] == (Action::Done {
                completed: true,
            }),
    decreases events.len(),
{
    if events.len() > 0 {
        lemma_finished_run_is_quiet(p, events.drop_first());
    }
}

/// Running the pass again with the same number of maximized windows changes
/// nothing: the only taskbar state a pass ever writes is the one its window
/// count asks for, and a pass that finds the taskbar in that state finishes at
/// once, successfully, writing neither the taskbar's state nor the animation
/// setting.
pub proof fn lemma_repeated_pass_is_idle(maximized: usize, first: Seq<Event>, second: Seq<Event>)
    ensures
        ({
            let actions = run(
                idle_pass(),
                seq![Event::Begin, Event::WindowsEnumerated { maximized }] + first,
            ).1;
            forall|i: int|
                0 <= i < actions.len() ==> appbar_written(#[trigger] actions[i]) is None
                    || appbar_written(actions[i]) == Some(desired_state_of(maximized > 0))
        }),
        ({
            let actions = run(
                idle_pass(),
                seq![
                    Event::Begin,
                    Event::WindowsEnumerated { maximized },
                    Event::AppbarRead { state: desired_state_of(maximized > 0) },
                ] + second,
            ).1;
            &&& actions[2] == (Action::Done { completed: true })
            &&& forall|i: int|
                0 <= i < actions.len() ==> appbar_written(#[trigger] actions[i]) is None
                    && settings_written(actions[i]) is None
        }),
{
    let head = seq![Event::Begin, Event::WindowsEnumerated { maximized }];
    let evs1 = head + first;
    let begun = step_of(idle_pass(), Event::Begin).0;
    let counted = step_of(begun, Event::WindowsEnumerated { maximized }).0;
    assert(evs1[0] == Event::Begin);
    assert(evs1.drop_first()[0] == Event::WindowsEnumerated { maximized });
    assert(evs1.drop_first().drop_first() =~= first);
    lemma_run_writes_target(counted, first);
    let actions1 = run(idle_pass(), evs1).1;
    let tail1 = run(counted, first).1;
    assert(actions1 == seq![Action::EnumerateWindows] + run(begun, evs1.drop_first()).1);
    assert(run(begun, evs1.drop_first()).1 == seq![Action::ReadAppbar] + tail1);
    assert(actions1 =~= seq![Action::EnumerateWindows, Action::ReadAppbar] + tail1);
    assert forall|i: int| 0 <= i < actions1.len() implies appbar_written(#[trigger] actions1[i])
        is None || appbar_written(actions1[i]) == Some(desired_state_of(maximized > 0)) by {
        if i >= 2 {
            assert(actions1[i] == tail1[i - 2]);
        }
    }
    let evs2 = seq![
        Event::Begin,
        Event::WindowsEnumerated { maximized },
        Event::AppbarRead { state: desired_state_of(maximized > 0) },
    ] + second;
    assert(evs2[0] == Event::Begin);
    assert(evs2.drop_first()[0] == Event::WindowsEnumerated { maximized });
    assert(evs2.drop_first().drop_first()[0] == Event::AppbarRead {
        state: desired_state_of(maximized > 0),
    });
    assert(evs2.drop_first().drop_first().drop_first() =~= second);
    let settled = step_of(counted, Event::AppbarRead { state: desired_state_of(maximized > 0) }).0;
    lemma_finished_run_is_quiet(settled, second);
    let actions = run(idle_pass(), evs2).1;
    let tail = run(settled, second).1;
    let d1 = evs2.drop_first();
    let d2 = d1.drop_first();
    assert(actions == seq![Action::EnumerateWindows] + run(begun, d1).1);
    assert(run(begun, d1).1 == seq![Action::ReadAppbar] + run(counted, d2).1);
    assert(run(counted, d2).1 == seq![Action::Done { completed: true }] + tail);
    assert(actions =~= seq![
        Action::EnumerateWindows,
        Action::ReadAppbar,
        Action::Done { completed: true },
    ] + tail);
    assert forall|i: int| 0 <= i < actions.len() implies appbar_written(#[trigger] actions[i]) is None
        && settings_written(actions[i]) is None by {
        if i >= 3 {
            assert(actions[i] == tail[i - 3]);
        }
    }
}

} // verus!
