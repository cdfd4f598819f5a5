use teapots::camera::{Controller, PITCH_LIMIT};
use teapots::input::{handle_event, InputEvent, KeyId, MouseButtonId, ShellAction};

fn press(key: KeyId) -> InputEvent {
    InputEvent::Keyboard { key, pressed: true, repeat: false }
}

fn release(key: KeyId) -> InputEvent {
    InputEvent::Keyboard { key, pressed: false, repeat: false }
}

#[test]
fn test_press_sets_unit_values() {
    let cases = [
        (KeyId::MoveW, (0, 0, 1)),
        (KeyId::MoveS, (0, 0, -1)),
        (KeyId::MoveA, (-1, 0, 0)),
        (KeyId::MoveD, (1, 0, 0)),
        (KeyId::MoveE, (0, 1, 0)),
        (KeyId::MoveQ, (0, -1, 0)),
    ];
    for (key, (strafe, up, fwd)) in cases {
        let mut c = Controller::start();
        let act = handle_event(&mut c, press(key));
        assert_eq!(act, ShellAction::NoOp);
        assert_eq!((c.intent.strafe, c.intent.up, c.intent.fwd), (strafe, up, fwd));
        assert_eq!(c.yaw, 0);
        assert_eq!(c.pitch, 0);
    }
}

#[test]
fn test_repeated_press_settles() {
    let mut c = Controller::start();
    for _ in 0..5 {
        handle_event(&mut c, press(KeyId::MoveW));
    }
    assert_eq!(c.intent.fwd, 1);
    assert_eq!(c.intent.strafe, 0);
    assert_eq!(c.intent.up, 0);
}

#[test]
fn test_repeat_flag_is_suppressed() {
    let mut c = Controller::start();
    let act = handle_event(
        &mut c,
        InputEvent::Keyboard { key: KeyId::MoveW, pressed: true, repeat: true },
    );
    assert_eq!(act, ShellAction::NoOp);
    assert_eq!(c.intent.fwd, 0);
}

#[test]
fn test_release_resets_axis() {
    let mut c = Controller::start();
    handle_event(&mut c, press(KeyId::MoveW));
    handle_event(&mut c, release(KeyId::MoveW));
    assert_eq!(c.intent.fwd, 0);
}

#[test]
fn test_release_with_opposing_key_held_resets_to_zero() {
    // The documented source policy: releasing one of two opposing keys
    // resets the axis to 0, it does not revert to the other key's value.
    let mut c = Controller::start();
    handle_event(&mut c, press(KeyId::MoveW));
    handle_event(&mut c, press(KeyId::MoveS));
    assert_eq!(c.intent.fwd, -1);
    handle_event(&mut c, release(KeyId::MoveS));
    assert_eq!(c.intent.fwd, 0);
    // Same for the strafe axis.
    handle_event(&mut c, press(KeyId::MoveA));
    handle_event(&mut c, press(KeyId::MoveD));
    assert_eq!(c.intent.strafe, 1);
    handle_event(&mut c, release(KeyId::MoveA));
    assert_eq!(c.intent.strafe, 0);
}

#[test]
fn test_press_leaves_other_axes_alone() {
    let mut c = Controller::start();
    handle_event(&mut c, press(KeyId::MoveE));
    handle_event(&mut c, press(KeyId::MoveW));
    assert_eq!(c.intent.up, 1);
    assert_eq!(c.intent.fwd, 1);
    assert_eq!(c.intent.strafe, 0);
}

#[test]
fn test_other_key_is_ignored() {
    let mut c = Controller::start();
    let act = handle_event(&mut c, press(KeyId::Other));
    assert_eq!(act, ShellAction::NoOp);
    assert_eq!(c, Controller::start());
}

#[test]
fn test_mouse_motion_turns_look() {
    let mut c = Controller::start();
    let act = handle_event(&mut c, InputEvent::MouseMotion { dx: 100, dy: 50 });
    assert_eq!(act, ShellAction::NoOp);
    // Sensitivity is 0.001 rad per count: 100 counts turn 0.1 rad.
    assert_eq!(c.yaw, -100_000);
    assert_eq!(c.pitch, -50_000);
}

#[test]
fn test_pitch_clamps_high() {
    let mut c = Controller::start();
    handle_event(&mut c, InputEvent::MouseMotion { dx: 0, dy: -10_000_000 });
    assert_eq!(c.pitch, PITCH_LIMIT);
}

#[test]
fn test_pitch_clamps_low() {
    let mut c = Controller::start();
    for _ in 0..10 {
        handle_event(&mut c, InputEvent::MouseMotion { dx: 0, dy: 1_000_000 });
    }
    assert_eq!(c.pitch, -PITCH_LIMIT);
}

#[test]
fn test_escape_unlocks_cursor() {
    let mut c = Controller::start();
    let act = handle_event(&mut c, press(KeyId::Escape));
    assert_eq!(act, ShellAction::UnlockCursor);
    assert_eq!(c.intent, Controller::start().intent);
}

#[test]
fn test_left_click_locks_cursor() {
    let mut c = Controller::start();
    let act = handle_event(
        &mut c,
        InputEvent::MouseButton { button: MouseButtonId::Left, pressed: true },
    );
    assert_eq!(act, ShellAction::LockCursor);
    let act = handle_event(
        &mut c,
        InputEvent::MouseButton { button: MouseButtonId::Other, pressed: true },
    );
    assert_eq!(act, ShellAction::NoOp);
    let act = handle_event(
        &mut c,
        InputEvent::MouseButton { button: MouseButtonId::Left, pressed: false },
    );
    assert_eq!(act, ShellAction::NoOp);
}

#[test]
fn test_focus_drives_cursor_lock() {
    let mut c = Controller::start();
    assert_eq!(
        handle_event(&mut c, InputEvent::Focus { gained: true }),
        ShellAction::LockCursor
    );
    assert_eq!(
        handle_event(&mut c, InputEvent::Focus { gained: false }),
        ShellAction::UnlockCursor
    );
}

#[test]
fn test_resize_is_forwarded() {
    let mut c = Controller::start();
    let act = handle_event(&mut c, InputEvent::Resized { width: 800, height: 600 });
    assert_eq!(act, ShellAction::ResizeViewport { width: 800, height: 600 });
    assert_eq!(c, Controller::start());
}

#[test]
fn test_close_request_exits() {
    let mut c = Controller::start();
    assert_eq!(handle_event(&mut c, InputEvent::CloseRequested), ShellAction::ExitLoop);
}
