//! The input dispatcher: platform events become controller-state edits and
//! shell actions.
//!
//! Each event is one pure state transition. A non-repeat press of a
//! movement key sets that key's intent axis to its signed unit value; a
//! release resets the axis to exactly zero whatever else is held (the
//! source policy for opposing keys, kept as documented, not "fixed").
//! Mouse motion turns yaw and pitch, and pitch is clamped so the camera
//! never flips; motion is integrated whether or not the cursor is locked.

use vstd::prelude::*;

use crate::camera::{controller_wf, Controller, Intent, ANGLE_LIMIT, PITCH_LIMIT};
use crate::fixed::{clamp_int, clamp_wide};

verus! {

/// Micro-radians of turn per raw mouse count: the fixed-point rendering of
/// a sensitivity of 0.001 radians per count.
pub const MOUSE_SENSITIVITY: i64 = 1000;

/// The keys the dispatcher distinguishes; every other key is `Other`.
#[derive(Clone, Copy, PartialEq, Eq, Structural, Debug)]
pub enum KeyId {
    MoveW,
    MoveS,
    MoveA,
    MoveD,
    MoveE,
    MoveQ,
    Escape,
    Other,
}

/// The mouse buttons the dispatcher distinguishes.
#[derive(Clone, Copy, PartialEq, Eq, Structural, Debug)]
pub enum MouseButtonId {
    Left,
    Other,
}

/// The closed taxonomy of platform events the dispatcher consumes.
/// Mouse motion carries the raw relative delta in counts, not a cursor
/// position.
#[derive(Clone, Copy, PartialEq, Eq, Structural, Debug)]
pub enum InputEvent {
    Keyboard { key: KeyId, pressed: bool, repeat: bool },
    MouseMotion { dx: i64, dy: i64 },
    MouseButton { button: MouseButtonId, pressed: bool },
    Focus { gained: bool },
    Resized { width: u32, height: u32 },
    CloseRequested,
}

/// What the platform shell is asked to do in response to an event. Cursor
/// grab failures are the shell's to log and ignore; no action feeds back
/// into the state.
#[derive(Clone, Copy, PartialEq, Eq, Structural, Debug)]
pub enum ShellAction {
    NoOp,
    LockCursor,
    UnlockCursor,
    ResizeViewport { width: u32, height: u32 },
    ExitLoop,
}

/// `k` is one of the six movement keys.
pub open spec fn is_movement_key(k: KeyId) -> bool {
    k is MoveW || k is MoveS || k is MoveA || k is MoveD || k is MoveE || k is MoveQ
}

/// The intent after a non-repeat press of `k`: the key's axis takes its
/// signed unit value (W forward +1, S forward -1, A strafe -1, D strafe
/// +1, E up +1, Q up -1); the other axes keep their values.
pub open spec fn intent_after_press(i: Intent, k: KeyId) -> Intent {
    match k {
        KeyId::MoveW => Intent { strafe: i.strafe, up: i.up, fwd: 1i64 },
        KeyId::MoveS => Intent { strafe: i.strafe, up: i.up, fwd: -1i64 },
        KeyId::MoveA => Intent { strafe: -1i64, up: i.up, fwd: i.fwd },
        KeyId::MoveD => Intent { strafe: 1i64, up: i.up, fwd: i.fwd },
        KeyId::MoveE => Intent { strafe: i.strafe, up: 1i64, fwd: i.fwd },
        KeyId::MoveQ => Intent { strafe: i.strafe, up: -1i64, fwd: i.fwd },
        _ => i,
    }
}

/// The intent after a release of `k`: the key's axis resets to exactly
/// zero, whatever it held and whatever other keys are down.
pub open spec fn intent_after_release(i: Intent, k: KeyId) -> Intent {
    match k {
        KeyId::MoveW => Intent { strafe: i.strafe, up: i.up, fwd: 0i64 },
        KeyId::MoveS => Intent { strafe: i.strafe, up: i.up, fwd: 0i64 },
        KeyId::MoveA => Intent { strafe: 0i64, up: i.up, fwd: i.fwd },
        KeyId::MoveD => Intent { strafe: 0i64, up: i.up, fwd: i.fwd },
        KeyId::MoveE => Intent { strafe: i.strafe, up: 0i64, fwd: i.fwd },
        KeyId::MoveQ => Intent { strafe: i.strafe, up: 0i64, fwd: i.fwd },
        _ => i,
    }
}

/// Yaw after a mouse delta of `dx` counts: turned left by
/// `dx * MOUSE_SENSITIVITY`, saturated at the angle store's bounds.
pub open spec fn yaw_after(yaw: int, dx: int) -> int {
    clamp_int(yaw - dx * MOUSE_SENSITIVITY, -ANGLE_LIMIT as int, ANGLE_LIMIT as int)
}

/// Pitch after a mouse delta of `dy` counts: turned by
/// `dy * MOUSE_SENSITIVITY` and clamped so the camera cannot flip.
pub open spec fn pitch_after(pitch: int, dy: int) -> int {
    clamp_int(pitch - dy * MOUSE_SENSITIVITY, -PITCH_LIMIT as int, PITCH_LIMIT as int)
}

/// The controller state after one event: presses and releases edit the
/// intent, mouse motion turns the look angles, and every other event
/// leaves the state alone.
pub open spec fn ctrl_after(c: Controller, ev: InputEvent) -> Controller {
    match ev {
        InputEvent::Keyboard { key, pressed, repeat } => {
            if pressed && !repeat {
                Controller {
                    position: c.position,
                    yaw: c.yaw,
                    pitch: c.pitch,
                    intent: intent_after_press(c.intent, key),
                }
            } else if !pressed {
                Controller {
                    position: c.position,
                    yaw: c.yaw,
                    pitch: c.pitch,
                    intent: intent_after_release(c.intent, key),
                }
            } else {
                c
            }
        },
        InputEvent::MouseMotion { dx, dy } => Controller {
            position: c.position,
            yaw: yaw_after(c.yaw as int, dx as int) as i64,
            pitch: pitch_after(c.pitch as int, dy as int) as i64,
            intent: c.intent,
        },
        _ => c,
    }
}

/// The shell action one event asks for: Escape releases the cursor lock, a
/// left click or gained focus acquires it, lost focus releases it, a
/// resize is forwarded to the viewport, and a close request ends the loop.
pub open spec fn action_for(ev: InputEvent) -> ShellAction {
    match ev {
        InputEvent::Keyboard { key, pressed, repeat } => {
            if key is Escape && pressed && !repeat {
                ShellAction::UnlockCursor
            } else {
                ShellAction::NoOp
            }
        },
        InputEvent::MouseMotion { .. } => ShellAction::NoOp,
        InputEvent::MouseButton { button, pressed } => {
            if button is Left && pressed {
                ShellAction::LockCursor
            } else {
                ShellAction::NoOp
            }
        },
        InputEvent::Focus { gained } => {
            if gained {
                ShellAction::LockCursor
            } else {
                ShellAction::UnlockCursor
            }
        },
        InputEvent::Resized { width, height } => ShellAction::ResizeViewport { width, height },
        InputEvent::CloseRequested => ShellAction::ExitLoop,
    }
}

/// Applies one platform event to the controller and returns the action
/// the shell should perform.
pub fn handle_event(c: &mut Controller, ev: InputEvent) -> (act: ShellAction)
    ensures
        *final(c) == ctrl_after(*old(c), ev),
        act == action_for(ev),
{
    match ev {
        InputEvent::Keyboard { key, pressed, repeat } => {
            if pressed && !repeat {
                c.intent = match key {
                    KeyId::MoveW => Intent { strafe: c.intent.strafe, up: c.intent.up, fwd: 1 },
                    KeyId::MoveS => Intent { strafe: c.intent.strafe, up: c.intent.up, fwd: -1 },
                    KeyId::MoveA => Intent { strafe: -1, up: c.intent.up, fwd: c.intent.fwd },
                    KeyId::MoveD => Intent { strafe: 1, up: c.intent.up, fwd: c.intent.fwd },
                    KeyId::MoveE => Intent { strafe: c.intent.strafe, up: 1, fwd: c.intent.fwd },
                    KeyId::MoveQ => Intent { strafe: c.intent.strafe, up: -1, fwd: c.intent.fwd },
                    _ => c.intent,
                };
                if let KeyId::Escape = key {
                    return ShellAction::UnlockCursor;
                }
                ShellAction::NoOp
            } else if !pressed {
                c.intent = match key {
                    KeyId::MoveW => Intent { strafe: c.intent.strafe, up: c.intent.up, fwd: 0 },
                    KeyId::MoveS => Intent { strafe: c.intent.strafe, up: c.intent.up, fwd: 0 },
                    KeyId::MoveA => Intent { strafe: 0, up: c.intent.up, fwd: c.intent.fwd },
                    KeyId::MoveD => Intent { strafe: 0, up: c.intent.up, fwd: c.intent.fwd },
                    KeyId::MoveE => Intent { strafe: c.intent.strafe, up: 0, fwd: c.intent.fwd },
                    KeyId::MoveQ => Intent { strafe: c.intent.strafe, up: 0, fwd: c.intent.fwd },
                    _ => c.intent,
                };
                ShellAction::NoOp
            } else {
                ShellAction::NoOp
            }
        },
        InputEvent::MouseMotion { dx, dy } => {
            let turn_x: i128 = (dx as i128) * 1000i128;
            let turn_y: i128 = (dy as i128) * 1000i128;
            c.yaw = clamp_wide((c.yaw as i128) - turn_x, -ANGLE_LIMIT, ANGLE_LIMIT);
            c.pitch = clamp_wide((c.pitch as i128) - turn_y, -PITCH_LIMIT, PITCH_LIMIT);
            ShellAction::NoOp
        },
        InputEvent::MouseButton { button, pressed } => {
            if pressed {
                if let MouseButtonId::Left = button {
                    return ShellAction::LockCursor;
                }
            }
            ShellAction::NoOp
        },
        InputEvent::Focus { gained } => {
            if gained {
                ShellAction::LockCursor
            } else {
                ShellAction::UnlockCursor
            }
        },
        InputEvent::Resized { width, height } => ShellAction::ResizeViewport { width, height },
        InputEvent::CloseRequested => ShellAction::ExitLoop,
    }
}

/// The controller after a whole sequence of events, oldest first.
pub open spec fn ctrl_after_all(c: Controller, evs: Seq<InputEvent>) -> Controller
    decreases evs.len(),
{
    if evs.len() == 0 {
        c
    } else {
        ctrl_after_all(ctrl_after(c, evs[0]), evs.drop_first())
    }
}

/// Dispatch preserves controller well-formedness: pressed and released
/// axes are unit values or zero, and the look angles stay within their
/// clamp bounds.
pub proof fn lemma_dispatch_preserves_wf(c: Controller, ev: InputEvent)
    requires
        controller_wf(c),
    ensures
        controller_wf(ctrl_after(c, ev)),
{
}

/// A whole event sequence preserves controller well-formedness.
pub proof fn lemma_dispatch_all_preserves_wf(c: Controller, evs: Seq<InputEvent>)
    requires
        controller_wf(c),
    ensures
        controller_wf(ctrl_after_all(c, evs)),
    decreases evs.len(),
{
    if evs.len() > 0 {
        lemma_dispatch_preserves_wf(c, evs[0]);
        lemma_dispatch_all_preserves_wf(ctrl_after(c, evs[0]), evs.drop_first());
    }
}

/// Pressing a movement key (non-repeat), once or any number of times
/// without an intervening release, settles that key's intent axis at its
/// signed unit value; the other two axes and everything else in the
/// controller are untouched.
pub proof fn lemma_held_key_settles(c: Controller, k: KeyId, evs: Seq<InputEvent>)
    requires
        is_movement_key(k),
        evs.len() >= 1,
        forall|j: int| 0 <= j < evs.len() ==> evs[j] == (InputEvent::Keyboard {
            key: k,
            pressed: true,
            repeat: false,
        }),
    ensures
        ctrl_after_all(c, evs).intent == intent_after_press(c.intent, k),
        ctrl_after_all(c, evs).position == c.position,
        ctrl_after_all(c, evs).yaw == c.yaw,
        ctrl_after_all(c, evs).pitch == c.pitch,
    decreases evs.len(),
{
    let ev = InputEvent::Keyboard { key: k, pressed: true, repeat: false };
    assert(evs[0] == ev);
    let c1 = ctrl_after(c, evs[0]);
    assert(c1.intent == intent_after_press(c.intent, k));
    if evs.len() == 1 {
        assert(ctrl_after_all(c1, evs.drop_first()) == c1);
    } else {
        let tail = evs.drop_first();
        assert forall|j: int| 0 <= j < tail.len() implies tail[j] == ev by {
            assert(evs[j + 1] == ev);
        }
        assert(intent_after_press(c1.intent, k) == intent_after_press(c.intent, k));
        lemma_held_key_settles(c1, k, tail);
    }
}

/// Releasing a movement key resets exactly its axis to zero, for every
/// starting intent: in particular also where an opposing key of the same
/// axis is still held, whose unit value is not restored.
pub proof fn lemma_release_resets_axis(c: Controller, k: KeyId, repeat: bool)
    requires
        is_movement_key(k),
    ensures
        ({
            let i = ctrl_after(c, InputEvent::Keyboard { key: k, pressed: false, repeat }).intent;
            &&& (k is MoveW || k is MoveS) ==> i == (Intent {
                strafe: c.intent.strafe,
                up: c.intent.up,
                fwd: 0i64,
            })
            &&& (k is MoveA || k is MoveD) ==> i == (Intent {
                strafe: 0i64,
                up: c.intent.up,
                fwd: c.intent.fwd,
            })
            &&& (k is MoveE || k is MoveQ) ==> i == (Intent {
                strafe: c.intent.strafe,
                up: 0i64,
                fwd: c.intent.fwd,
            })
        }),
{
}

/// One mouse-motion event leaves pitch within the clamp bounds, whatever
/// the delta and whatever the pitch was before.
pub proof fn lemma_motion_clamps_pitch(c: Controller, dx: i64, dy: i64)
    ensures
        -PITCH_LIMIT <= ctrl_after(c, InputEvent::MouseMotion { dx, dy }).pitch <= PITCH_LIMIT,
{
}

/// No event moves pitch out of the clamp bounds.
pub proof fn lemma_pitch_bound_is_invariant(c: Controller, ev: InputEvent)
    requires
        -PITCH_LIMIT <= c.pitch <= PITCH_LIMIT,
    ensures
        -PITCH_LIMIT <= ctrl_after(c, ev).pitch <= PITCH_LIMIT,
{
}

/// After any event sequence holding at least one mouse-motion event,
/// pitch lies within the clamp bounds, whatever it was at the start and
/// whatever the deltas were.
pub proof fn lemma_pitch_bounded_after_motion(c: Controller, evs: Seq<InputEvent>)
    requires
        exists|j: int| 0 <= j < evs.len() && evs[j] is MouseMotion,
    ensures
        -PITCH_LIMIT <= ctrl_after_all(c, evs).pitch <= PITCH_LIMIT,
    decreases evs.len(),
{
    let c1 = ctrl_after(c, evs[0]);
    if evs[0] is MouseMotion {
        lemma_pitch_tail_keeps_bound(c1, evs.drop_first());
    } else {
        let j = choose|j: int| 0 <= j < evs.len() && evs[j] is MouseMotion;
        assert(evs.drop_first()[j - 1] is MouseMotion);
        lemma_pitch_bounded_after_motion(c1, evs.drop_first());
    }
}

/// Once pitch is within the clamp bounds, a whole event sequence keeps it
/// there.
pub proof fn lemma_pitch_tail_keeps_bound(c: Controller, evs: Seq<InputEvent>)
    requires
        -PITCH_LIMIT <= c.pitch <= PITCH_LIMIT,
    ensures
        -PITCH_LIMIT <= ctrl_after_all(c, evs).pitch <= PITCH_LIMIT,
    decreases evs.len(),
{
    if evs.len() > 0 {
        lemma_pitch_bound_is_invariant(c, evs[0]);
        lemma_pitch_tail_keeps_bound(ctrl_after(c, evs[0]), evs.drop_first());
    }
}

} // verus!
