//! The two directions of reconciliation between a window and its persisted
//! state, and the startup adjustment to the displays at hand.

use vstd::prelude::*;
use crate::components::{clone_name, name_view, ScaleFactor, WindowMode, WindowState};
use crate::monitors::{distinct_monitors, MonitorCatalog, MonitorDescriptor};

verus! {

/// Where a window asks to be placed.
#[derive(Clone, Copy, Debug, PartialEq, Eq, Structural)]
pub enum WindowPlacement {
    /// The platform places the window.
    Automatic,
    /// Centered on the display with this enumeration index.
    Centered(usize),
    /// At this position, in physical pixels.
    At(i32, i32),
}

/// The window abstraction of the runtime: what the window asks for.
#[derive(Clone, Copy, Debug)]
pub struct WindowModel {
    /// Mode of the window.
    pub mode: WindowMode,
    /// Requested resolution, in physical pixels.
    pub resolution: (u32, u32),
    /// Scale factor that overrides the platform's, if any.
    pub scale_factor_override: Option<ScaleFactor>,
    /// Scale factor the platform reports for the window.
    pub base_scale_factor: ScaleFactor,
    /// Requested placement.
    pub position: WindowPlacement,
}

/// What the live surface of a window reports.
#[derive(Debug)]
pub struct LiveSurface {
    /// Actual inner size, in physical pixels.
    pub inner_size: (u32, u32),
    /// Actual outer position, in physical pixels, when it can be read.
    pub outer_position: Option<(i32, i32)>,
    /// Name of the display the surface is on, when one can be determined.
    pub current_monitor_name: Option<String>,
    /// Scale factor of the display the surface is on, when one can be determined.
    pub current_monitor_scale: Option<ScaleFactor>,
}

impl WindowModel {
    /// The effective scale factor: the override when set, else the platform's.
    pub open spec fn effective_scale(self) -> ScaleFactor {
        match self.scale_factor_override {
            Some(s) => s,
            None => self.base_scale_factor,
        }
    }

    /// The effective scale factor of the window.
    pub fn scale_factor(&self) -> (r: ScaleFactor)
        ensures
            r == self.effective_scale(),
    {
        match self.scale_factor_override {
            Some(s) => s,
            None => self.base_scale_factor,
        }
    }
}

/// The window after a state with a concrete resolution has been applied to it,
/// with `monitor_index` the display it was resolved to, if any.
pub open spec fn applied_window(w: WindowModel, s: WindowState, monitor_index: Option<usize>) -> WindowModel {
    WindowModel {
        mode: s.mode,
        resolution: s.resolution.unwrap(),
        scale_factor_override: s.scale,
        position: match s.position {
            Some((x, y)) => WindowPlacement::At(x, y),
            None => match monitor_index {
                Some(i) => WindowPlacement::Centered(i),
                None => WindowPlacement::Automatic,
            },
        },
        ..w
    }
}

/// Propagates the state to the window: mode, resolution and scale override
/// from the state; the state's position, else centered on the resolved
/// display, else automatic placement.
pub fn apply_state_to_window(window: &mut WindowModel, state: &WindowState, monitor_index: Option<usize>)
    requires
        state.resolution is Some,
    ensures
        *final(window) == applied_window(*old(window), *state, monitor_index),
{
    window.mode = state.mode;
    match state.resolution {
        Some(res) => {
            window.resolution = res;
        },
        None => {},
    }
    window.scale_factor_override = state.scale;
    window.position = match state.position {
        Some((x, y)) => WindowPlacement::At(x, y),
        None => match monitor_index {
            Some(i) => WindowPlacement::Centered(i),
            None => WindowPlacement::Automatic,
        },
    };
}

/// The display a state targets: the catalog's display named by the state when
/// there is one, else `best`.
pub open spec fn target_monitor(cat: Seq<MonitorDescriptor>, best: MonitorDescriptor, s: WindowState) -> MonitorDescriptor {
    if s.monitor is Some && exists|m: MonitorDescriptor|
        cat.contains(m) && m.name@ == s.monitor.unwrap()@ {
        choose|m: MonitorDescriptor| cat.contains(m) && m.name@ == s.monitor.unwrap()@
    } else {
        best
    }
}

/// The state with its placeholders resolved against its target display.
pub open spec fn adjusted(cat: Seq<MonitorDescriptor>, best: MonitorDescriptor, s: WindowState) -> WindowState {
    let t = target_monitor(cat, best, s);
    WindowState {
        mode: s.mode,
        monitor: Some(t.name),
        resolution: match s.resolution {
            Some(r) => Some(r),
            None => Some((t.width, t.height)),
        },
        scale: match s.scale {
            Some(f) => Some(f),
            None => Some(t.scale),
        },
        position: s.position,
        auto_scaled: s.auto_scaled,
    }
}

/// Resolves the state against the displays at hand and applies it to the
/// window. The state is written (and `true` returned) only when the resolved
/// state differs from it.
pub fn adjust_to_monitor(
    catalog: &MonitorCatalog,
    best: &MonitorDescriptor,
    window: &mut WindowModel,
    state: &mut WindowState,
) -> (written: bool)
    requires
        catalog.wf(),
    ensures
        written == !adjusted(catalog@, *best, *old(state)).same_record(*old(state)),
        *final(state) == (if written {
            adjusted(catalog@, *best, *old(state))
        } else {
            *old(state)
        }),
        *final(window) == applied_window(
            *old(window),
            adjusted(catalog@, *best, *old(state)),
            Some(target_monitor(catalog@, *best, *old(state)).index),
        ),
{
    let ghost s0 = *state;
    let target = match &state.monitor {
        Some(name) => match catalog.find(name) {
            Some(m) => m,
            None => best,
        },
        None => best,
    };
    proof {
        if s0.monitor is Some {
            let n = s0.monitor.unwrap();
            if exists|m: MonitorDescriptor| catalog@.contains(m) && m.name@ == n@ {
                let c = choose|m: MonitorDescriptor| catalog@.contains(m) && m.name@ == n@;
                let i = choose|i: int| 0 <= i < catalog@.len() && catalog@[i] == c;
                let j = choose|j: int| 0 <= j < catalog@.len() && catalog@[j] == *target;
                assert(catalog@[i].name@ == catalog@[j].name@);
            }
        }
        assert(*target == target_monitor(catalog@, *best, s0));
    }
    let candidate = WindowState {
        mode: state.mode,
        monitor: Some(target.name.clone()),
        resolution: match state.resolution {
            Some(r) => Some(r),
            None => Some((target.width, target.height)),
        },
        scale: match state.scale {
            Some(f) => Some(f),
            None => Some(target.scale),
        },
        position: state.position,
        auto_scaled: state.auto_scaled,
    };
    let index = target.index;
    let written = !candidate.same_record_as(state);
    apply_state_to_window(window, &candidate, Some(index));
    if written {
        *state = candidate;
    }
    written
}

/// The persisted state after one adjustment of `s`.
pub open spec fn after_adjust(cat: Seq<MonitorDescriptor>, best: MonitorDescriptor, s: WindowState) -> WindowState {
    if adjusted(cat, best, s).same_record(s) {
        s
    } else {
        adjusted(cat, best, s)
    }
}

/// Adjusting is idempotent: a second adjustment, against the same catalog
/// (which holds the best display) and with no change in between, writes
/// nothing, and leaves the window as the first adjustment left it.
pub proof fn lemma_adjust_idempotent(
    cat: Seq<MonitorDescriptor>,
    best: MonitorDescriptor,
    s: WindowState,
    w: WindowModel,
)
    requires
        distinct_monitors(cat),
        cat.contains(best),
    ensures
        adjusted(cat, best, after_adjust(cat, best, s)).same_record(after_adjust(cat, best, s)),
        ({
            let s1 = after_adjust(cat, best, s);
            let w1 = applied_window(w, adjusted(cat, best, s), Some(target_monitor(cat, best, s).index));
            applied_window(w1, adjusted(cat, best, s1), Some(target_monitor(cat, best, s1).index)) == w1
        }),
{
    let t = target_monitor(cat, best, s);
    let a = adjusted(cat, best, s);
    assert(cat.contains(t));
    let ta = target_monitor(cat, best, a);
    assert(cat.contains(t) && t.name@ == a.monitor.unwrap()@);
    let i = choose|i: int| 0 <= i < cat.len() && cat[i] == t;
    let j = choose|j: int| 0 <= j < cat.len() && cat[j] == ta;
    assert(cat[i].name@ == cat[j].name@);
    assert(ta == t);
    if a.same_record(s) {
        assert(name_view(s.monitor) == name_view(a.monitor));
        assert(target_monitor(cat, best, s) == target_monitor(cat, best, a));
    }
}

/// The state as captured from the window and its live surface: the live
/// surface's display, size and position, the window's mode and scale; when
/// the live position cannot be read, the window's explicit position, else the
/// state's previous one.
pub open spec fn captured(w: WindowModel, s: WindowState, live: LiveSurface) -> WindowState {
    WindowState {
        mode: w.mode,
        monitor: live.current_monitor_name,
        resolution: Some(live.inner_size),
        scale: Some(w.effective_scale()),
        position: match live.outer_position {
            Some(p) => Some(p),
            None => match w.position {
                WindowPlacement::At(x, y) => Some((x, y)),
                _ => s.position,
            },
        },
        auto_scaled: s.auto_scaled,
    }
}

/// Captures the window's live placement into the state. The state is written
/// (and `true` returned) only when the captured state differs from it.
pub fn apply_window_to_state(window: &WindowModel, state: &mut WindowState, live: &LiveSurface) -> (written: bool)
    ensures
        written == !captured(*window, *old(state), *live).same_record(*old(state)),
        *final(state) == (if written {
            captured(*window, *old(state), *live)
        } else {
            *old(state)
        }),
{
    let position = match live.outer_position {
        Some(p) => Some(p),
        None => match window.position {
            WindowPlacement::At(x, y) => Some((x, y)),
            _ => state.position,
        },
    };
    let candidate = WindowState {
        mode: window.mode,
        monitor: clone_name(&live.current_monitor_name),
        resolution: Some(live.inner_size),
        scale: Some(window.scale_factor()),
        position,
        auto_scaled: state.auto_scaled,
    };
    let written = !candidate.same_record_as(state);
    if written {
        *state = candidate;
    }
    written
}

/// Round trip: a state with a concrete resolution, applied to a window whose
/// live surface then reports that resolution at some position, is captured
/// back with the same mode and resolution, at that position.
pub proof fn lemma_round_trip(
    w: WindowModel,
    s: WindowState,
    monitor_index: Option<usize>,
    live: LiveSurface,
    at: (i32, i32),
)
    requires
        s.resolution is Some,
        live.inner_size == s.resolution.unwrap(),
        live.outer_position == Some(at),
    ensures
        captured(applied_window(w, s, monitor_index), s, live).mode == s.mode,
        captured(applied_window(w, s, monitor_index), s, live).resolution == s.resolution,
        captured(applied_window(w, s, monitor_index), s, live).position == Some(at),
{
}

} // verus!
