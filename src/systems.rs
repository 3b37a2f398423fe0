//! The steps run per window: startup restoration, the one-shot auto-scale,
//! capture on window events and propagation on state changes.

use vstd::prelude::*;
use crate::components::{ScaleFactor, WindowState};
use crate::monitors::{best_of, MonitorCatalog};
use crate::plugins::{after_capture, after_notification, decide, flag_of, PersistentWindowsPlugin, StateChangeAction};
use crate::utils::{adjust_to_monitor, adjusted, applied_window, apply_state_to_window, captured, target_monitor, LiveSurface, WindowModel};

verus! {

/// Restores a window from its state at startup: with no usable display the
/// window and state are left as they are; otherwise the state is adjusted to
/// the best display of the catalog (or the one it names) and applied. Returns
/// whether the state was written.
pub fn restore_window(catalog: &MonitorCatalog, window: &mut WindowModel, state: &mut WindowState) -> (written: bool)
    requires
        catalog.wf(),
    ensures
        catalog@.len() == 0 ==> !written && *final(state) == *old(state) && *final(window) == *old(window),
        catalog@.len() > 0 ==> {
            let a = adjusted(catalog@, best_of(catalog@), *old(state));
            &&& written == !a.same_record(*old(state))
            &&& *final(state) == (if written { a } else { *old(state) })
            &&& *final(window) == applied_window(
                *old(window),
                a,
                Some(target_monitor(catalog@, best_of(catalog@), *old(state)).index),
            )
        },
{
    if catalog.is_empty() {
        return false;
    }
    let best = catalog.select_best();
    adjust_to_monitor(catalog, best, window, state)
}

/// The state after the one-shot auto-scale with the scale observed on the
/// live surface's display, if any.
pub open spec fn auto_scaled_state(s: WindowState, observed: Option<ScaleFactor>) -> WindowState {
    if s.auto_scaled && observed is Some {
        WindowState { auto_scaled: false, scale: observed, ..s }
    } else {
        s
    }
}

/// Takes the scale of the live surface's display as the state's scale the
/// first time one is observed. Returns whether the state was written.
pub fn auto_scale(state: &mut WindowState, live: &LiveSurface) -> (written: bool)
    ensures
        *final(state) == auto_scaled_state(*old(state), live.current_monitor_scale),
        written == (old(state).auto_scaled && live.current_monitor_scale is Some),
{
    if state.auto_scaled {
        match live.current_monitor_scale {
            Some(s) => {
                state.auto_scaled = false;
                state.scale = Some(s);
                return true;
            },
            None => {},
        }
    }
    false
}

/// Auto-scaling is one-shot: a state waiting for its scale takes the first
/// observed one and stops waiting, and any later observation leaves it alone.
pub proof fn lemma_auto_scale_one_shot(s: WindowState, first: ScaleFactor, later: Option<ScaleFactor>)
    requires
        s.auto_scaled,
    ensures
        auto_scaled_state(s, Some(first)).scale == Some(first),
        !auto_scaled_state(s, Some(first)).auto_scaled,
        auto_scaled_state(auto_scaled_state(s, Some(first)), later) == auto_scaled_state(s, Some(first)),
{
}

/// Captures the state of a window that has moved.
pub fn on_persistent_window_moved(
    plugin: &mut PersistentWindowsPlugin,
    window_id: u64,
    window: &WindowModel,
    state: &mut WindowState,
    live: &LiveSurface,
) -> (written: bool)
    ensures
        written == !captured(*window, *old(state), *live).same_record(*old(state)),
        *final(state) == (if written { captured(*window, *old(state), *live) } else { *old(state) }),
        final(plugin)@ == after_capture(old(plugin)@, window_id, written),
{
    plugin.capture(window_id, window, state, live)
}

/// Captures the state of a window that has been resized.
pub fn on_persistent_window_resized(
    plugin: &mut PersistentWindowsPlugin,
    window_id: u64,
    window: &WindowModel,
    state: &mut WindowState,
    live: &LiveSurface,
) -> (written: bool)
    ensures
        written == !captured(*window, *old(state), *live).same_record(*old(state)),
        *final(state) == (if written { captured(*window, *old(state), *live) } else { *old(state) }),
        final(plugin)@ == after_capture(old(plugin)@, window_id, written),
{
    plugin.capture(window_id, window, state, live)
}

/// Captures the state of a window whose scale factor has changed.
pub fn on_persistent_window_scale_factor_changed(
    plugin: &mut PersistentWindowsPlugin,
    window_id: u64,
    window: &WindowModel,
    state: &mut WindowState,
    live: &LiveSurface,
) -> (written: bool)
    ensures
        written == !captured(*window, *old(state), *live).same_record(*old(state)),
        *final(state) == (if written { captured(*window, *old(state), *live) } else { *old(state) }),
        final(plugin)@ == after_capture(old(plugin)@, window_id, written),
{
    plugin.capture(window_id, window, state, live)
}

/// Handles a change of a window's state: an echo of a capture is absorbed;
/// any other change is to be persisted by the caller, and is applied to the
/// window (centered on `monitor_index` when the state has no position) once
/// the state's resolution is resolved; until then the window is left alone.
pub fn on_persistent_window_state_changed(
    plugin: &mut PersistentWindowsPlugin,
    window_id: u64,
    window: &mut WindowModel,
    state: &WindowState,
    monitor_index: Option<usize>,
) -> (r: StateChangeAction)
    ensures
        r == decide(flag_of(old(plugin)@, window_id)),
        final(plugin)@ == after_notification(old(plugin)@, window_id),
        *final(window) == (if r == StateChangeAction::PersistAndApply && state.resolution is Some {
            applied_window(*old(window), *state, monitor_index)
        } else {
            *old(window)
        }),
{
    let r = plugin.on_state_changed(window_id);
    match r {
        StateChangeAction::PersistAndApply => {
            if state.resolution.is_some() {
                apply_state_to_window(window, state, monitor_index);
            }
        },
        StateChangeAction::Absorb => {},
    }
    r
}

} // verus!
