//! Cursor and input-gate controller: decides each frame whether player input
//! is live and what the window's cursor should do.  The application applies
//! the resulting cursor state to its window; no movement logic lives here.

use vstd::prelude::*;

verus! {

/// Cross-frame gate state: whether input reaches the movement core, and the
/// cursor state the window should show.
#[derive(Clone, Copy, PartialEq, Eq, Structural, Debug)]
pub struct GateState {
    pub input_enabled: bool,
    pub cursor_locked: bool,
    pub cursor_visible: bool,
}

/// The events one frame may carry: an edge-triggered capture-toggle key, the
/// escape key, the primary mouse button, and whether an external overlay
/// (editor or menu) currently claims focus.
#[derive(Clone, Copy, PartialEq, Eq, Structural, Debug)]
pub struct GateEvents {
    pub toggle_pressed: bool,
    pub escape_pressed: bool,
    pub click_pressed: bool,
    pub overlay_active: bool,
}

/// Input live: cursor hidden and locked to the window.
pub open spec fn captured_state() -> GateState {
    GateState { input_enabled: true, cursor_locked: true, cursor_visible: false }
}

/// Input gated off: cursor visible and free.
pub open spec fn released_state() -> GateState {
    GateState { input_enabled: false, cursor_locked: false, cursor_visible: true }
}

/// The state after one frame of events, applied in order: the toggle
/// key flips capture; escape (or a cursor that came unlocked while input was
/// live) forces a release; a click while released re-captures, unless the
/// overlay is active.
pub open spec fn gate_step_spec(s: GateState, e: GateEvents) -> GateState {
    let s1 = if e.toggle_pressed {
        if s.cursor_locked {
            released_state()
        } else {
            captured_state()
        }
    } else {
        s
    };
    let s2 = if e.escape_pressed || (!s1.cursor_locked && s1.input_enabled) {
        released_state()
    } else {
        s1
    };
    if e.click_pressed && (!s2.input_enabled || s2.cursor_visible || !s2.cursor_locked)
        && !e.overlay_active {
        captured_state()
    } else {
        s2
    }
}

/// Whether this frame's events make the window re-center its cursor: exactly
/// when a capture is performed (by toggle or by click).
pub open spec fn gate_recenter_spec(s: GateState, e: GateEvents) -> bool {
    let s1 = if e.toggle_pressed {
        if s.cursor_locked {
            released_state()
        } else {
            captured_state()
        }
    } else {
        s
    };
    let s2 = if e.escape_pressed || (!s1.cursor_locked && s1.input_enabled) {
        released_state()
    } else {
        s1
    };
    ||| e.toggle_pressed && !s.cursor_locked
    ||| e.click_pressed && (!s2.input_enabled || s2.cursor_visible || !s2.cursor_locked)
        && !e.overlay_active
}

/// Input is live only while the cursor is hidden and locked.
pub open spec fn gate_wf(s: GateState) -> bool {
    s.input_enabled ==> s.cursor_locked && !s.cursor_visible
}

/// One step keeps the state well formed.
pub proof fn lemma_gate_step_wf(s: GateState, e: GateEvents)
    requires
        gate_wf(s),
    ensures
        gate_wf(gate_step_spec(s, e)),
{
}

/// Applies one frame of gate events; returns whether the application should
/// re-center the cursor.
pub fn update_gate(s: &mut GateState, e: &GateEvents) -> (recenter: bool)
    ensures
        *final(s) == gate_step_spec(*old(s), *e),
        recenter == gate_recenter_spec(*old(s), *e),
{
    let mut recenter = false;
    if e.toggle_pressed {
        if s.cursor_locked {
            s.input_enabled = false;
            s.cursor_locked = false;
            s.cursor_visible = true;
        } else {
            s.input_enabled = true;
            s.cursor_locked = true;
            s.cursor_visible = false;
            recenter = true;
        }
    }
    if e.escape_pressed || (!s.cursor_locked && s.input_enabled) {
        s.input_enabled = false;
        s.cursor_locked = false;
        s.cursor_visible = true;
    }
    if e.click_pressed && (!s.input_enabled || s.cursor_visible || !s.cursor_locked)
        && !e.overlay_active {
        s.input_enabled = true;
        s.cursor_locked = true;
        s.cursor_visible = false;
        recenter = true;
    }
    recenter
}

} // verus!
