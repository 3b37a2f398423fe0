//! The synchronization controller: which change notifications of a window's
//! persisted state are echoes of its own captures, and which must propagate.

use std::collections::HashMap;
use vstd::prelude::*;
use crate::components::WindowState;
use crate::utils::{apply_window_to_state, captured, LiveSurface, WindowModel};

verus! {

broadcast use vstd::std_specs::hash::group_hash_axioms;

/// Per-window marker of a self-inflicted write to the persisted state.
#[derive(Clone, Copy, Debug, PartialEq, Eq, Structural)]
pub enum SyncFlag {
    /// The next change notification comes from elsewhere and must propagate.
    Idle,
    /// The state was just written from the window; its notification is an echo.
    SelfWriteJustCommitted,
}

/// What to do with a change notification of a window's persisted state.
#[derive(Clone, Copy, Debug, PartialEq, Eq, Structural)]
pub enum StateChangeAction {
    /// The change echoes a capture from the window: nothing more to do.
    Absorb,
    /// A programmatic change: persist the state, then apply it to the window.
    PersistAndApply,
}

/// Restores window states before the run and keeps windows and their states
/// synchronized during it, one suppression flag per window identity.
pub struct PersistentWindowsPlugin {
    flags: HashMap<u64, SyncFlag>,
}

/// The flag of a window; a window never seen is idle.
pub open spec fn flag_of(flags: Map<u64, SyncFlag>, window: u64) -> SyncFlag {
    if flags.contains_key(window) {
        flags[window]
    } else {
        SyncFlag::Idle
    }
}

/// The action for a change notification of a window with this flag.
pub open spec fn decide(flag: SyncFlag) -> StateChangeAction {
    match flag {
        SyncFlag::SelfWriteJustCommitted => StateChangeAction::Absorb,
        SyncFlag::Idle => StateChangeAction::PersistAndApply,
    }
}

/// The flags after a change notification of `window` has been handled: an
/// echo is consumed, anything else leaves the flags as they were.
pub open spec fn after_notification(flags: Map<u64, SyncFlag>, window: u64) -> Map<u64, SyncFlag> {
    if flag_of(flags, window) == SyncFlag::SelfWriteJustCommitted {
        flags.insert(window, SyncFlag::Idle)
    } else {
        flags
    }
}

/// The flags after a capture of `window` that did (`written`) or did not
/// write its state.
pub open spec fn after_capture(flags: Map<u64, SyncFlag>, window: u64, written: bool) -> Map<u64, SyncFlag> {
    if written {
        flags.insert(window, SyncFlag::SelfWriteJustCommitted)
    } else {
        flags
    }
}

impl View for PersistentWindowsPlugin {
    type V = Map<u64, SyncFlag>;

    closed spec fn view(&self) -> Map<u64, SyncFlag> {
        self.flags@
    }
}

impl PersistentWindowsPlugin {
    /// A controller that tracks no window yet.
    pub fn new() -> (r: PersistentWindowsPlugin)
        ensures
            r@ == Map::<u64, SyncFlag>::empty(),
    {
        PersistentWindowsPlugin { flags: HashMap::new() }
    }

    /// Starts tracking a window, with an idle flag.
    pub fn track(&mut self, window: u64)
        ensures
            final(self)@ == old(self)@.insert(window, SyncFlag::Idle),
    {
        self.flags.insert(window, SyncFlag::Idle);
    }

    /// Stops tracking a window.
    pub fn forget(&mut self, window: u64)
        ensures
            final(self)@ == old(self)@.remove(window),
    {
        self.flags.remove(&window);
    }

    /// The suppression flag of a window.
    pub fn flag(&self, window: u64) -> (r: SyncFlag)
        ensures
            r == flag_of(self@, window),
    {
        match self.flags.get(&window) {
            Some(f) => *f,
            None => SyncFlag::Idle,
        }
    }

    /// Captures a window's live placement into its state; when that writes the
    /// state, the window's next change notification is marked as an echo.
    pub fn capture(&mut self, window_id: u64, window: &WindowModel, state: &mut WindowState, live: &LiveSurface) -> (written: bool)
        ensures
            written == !captured(*window, *old(state), *live).same_record(*old(state)),
            *final(state) == (if written {
                captured(*window, *old(state), *live)
            } else {
                *old(state)
            }),
            final(self)@ == after_capture(old(self)@, window_id, written),
    {
        let written = apply_window_to_state(window, state, live);
        if written {
            self.flags.insert(window_id, SyncFlag::SelfWriteJustCommitted);
        }
        written
    }

    /// Handles a change notification of a window's state: an echo of a capture
    /// is absorbed and its flag cleared; any other change is to be persisted and
    /// applied to the window.
    pub fn on_state_changed(&mut self, window_id: u64) -> (r: StateChangeAction)
        ensures
            r == decide(flag_of(old(self)@, window_id)),
            final(self)@ == after_notification(old(self)@, window_id),
    {
        let flag = self.flag(window_id);
        match flag {
            SyncFlag::SelfWriteJustCommitted => {
                self.flags.insert(window_id, SyncFlag::Idle);
                StateChangeAction::Absorb
            },
            SyncFlag::Idle => StateChangeAction::PersistAndApply,
        }
    }
}

/// No feedback loop: when a capture writes a window's state, the change
/// notification that follows is absorbed, not propagated back to the window,
/// and it leaves the window's flag idle again; a second capture of the same
/// window and live surface writes nothing.
pub proof fn lemma_no_feedback_loop(
    flags: Map<u64, SyncFlag>,
    window_id: u64,
    w: WindowModel,
    s: WindowState,
    live: LiveSurface,
)
    requires
        !captured(w, s, live).same_record(s),
    ensures
        decide(flag_of(after_capture(flags, window_id, true), window_id)) == StateChangeAction::Absorb,
        flag_of(after_notification(after_capture(flags, window_id, true), window_id), window_id)
            == SyncFlag::Idle,
        captured(w, captured(w, s, live), live).same_record(captured(w, s, live)),
{
}

} // verus!
