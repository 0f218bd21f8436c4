use rusty_doom::dg_io::{
    map_key_to_doom, Action, DeviceEvent, DgIo, EngineInput, HostEvent, Key, Modifiers,
    MouseButton, WindowCommand, WindowEvent, BUTTON_LEFT, BUTTON_MIDDLE, BUTTON_RIGHT,
    DGK_DOWN, DGK_ENTER, DGK_ESCAPE, DGK_FIRE, DGK_LEFT, DGK_RIGHT, DGK_UP, DGK_USE,
    DG_KEY_A, DG_KEY_D, DG_KEY_DOWN, DG_KEY_ENTER, DG_KEY_ESCAPE, DG_KEY_LEFT, DG_KEY_RIGHT,
    DG_KEY_S, DG_KEY_SPACE, DG_KEY_UNKNOWN, DG_KEY_UP, DG_KEY_W,
};

fn key(key: Key, pressed: bool) -> HostEvent {
    HostEvent::Window(WindowEvent::KeyboardInput { key, pressed })
}

fn button(button: MouseButton, pressed: bool) -> HostEvent {
    HostEvent::Window(WindowEvent::MouseInput { button, pressed })
}

fn motion(dx: f32, dy: f32) -> HostEvent {
    HostEvent::Device(DeviceEvent::MouseMotion { dx: dx.to_bits(), dy: dy.to_bits() })
}

fn mods(alt: bool, control: bool, super_key: bool) -> HostEvent {
    HostEvent::Window(WindowEvent::ModifiersChanged(Modifiers {
        shift: false,
        control,
        alt,
        super_key,
    }))
}

#[test]
fn new_is_windowed_uncaptured_and_without_modifiers() {
    let io = DgIo::new();
    assert!(!io.is_fullscreen);
    assert!(!io.mouse_captured);
    assert!(!io.super_ctrl_f);
    assert_eq!(io.mods, Modifiers::empty());
    assert_eq!(
        Modifiers::empty(),
        Modifiers { shift: false, control: false, alt: false, super_key: false }
    );
}

#[test]
fn movement_letters_map_to_lower_case_characters() {
    assert_eq!(map_key_to_doom(Key::KeyW), 'w' as i32);
    assert_eq!(map_key_to_doom(Key::KeyA), 'a' as i32);
    assert_eq!(map_key_to_doom(Key::KeyS), 's' as i32);
    assert_eq!(map_key_to_doom(Key::KeyD), 'd' as i32);
    assert_eq!(map_key_to_doom(Key::KeyW), 119);
}

#[test]
fn named_keys_map_to_sentinels() {
    assert_eq!(map_key_to_doom(Key::Space), 1200);
    assert_eq!(map_key_to_doom(Key::ControlLeft), 1201);
    assert_eq!(map_key_to_doom(Key::ControlRight), 1201);
    assert_eq!(map_key_to_doom(Key::ArrowUp), 1100);
    assert_eq!(map_key_to_doom(Key::ArrowDown), 1101);
    assert_eq!(map_key_to_doom(Key::ArrowLeft), 1102);
    assert_eq!(map_key_to_doom(Key::ArrowRight), 1103);
    assert_eq!(map_key_to_doom(Key::Enter), 1000);
    assert_eq!(map_key_to_doom(Key::Escape), 1001);
    assert_eq!(
        (DGK_USE, DGK_FIRE, DGK_UP, DGK_DOWN, DGK_LEFT, DGK_RIGHT, DGK_ENTER, DGK_ESCAPE),
        (1200, 1201, 1100, 1101, 1102, 1103, 1000, 1001)
    );
}

#[test]
fn other_keys_map_to_unknown() {
    assert_eq!(map_key_to_doom(Key::Other), 0);
    assert_eq!(map_key_to_doom(Key::KeyF), 0);
    assert_eq!(map_key_to_doom(Key::F11), 0);
    assert_eq!(DG_KEY_UNKNOWN, 0);
}

#[test]
fn key_press_and_release_reach_the_engine() {
    let mut io = DgIo::new();
    assert_eq!(io.handle(&key(Key::KeyW, true)), vec![Action::Engine(EngineInput::KeyDown(119))]);
    assert_eq!(io.handle(&key(Key::KeyW, false)), vec![Action::Engine(EngineInput::KeyUp(119))]);
    assert_eq!(io.handle(&key(Key::Other, true)), vec![Action::Engine(EngineInput::KeyDown(0))]);
    assert_eq!(io, DgIo::new());
}

#[test]
fn left_press_while_uncaptured_captures_and_escape_releases() {
    let mut io = DgIo::new();
    let out = io.handle(&button(MouseButton::Left, true));
    assert_eq!(
        out,
        vec![
            Action::Window(WindowCommand::GrabCursor),
            Action::Engine(EngineInput::MouseButton { button: 0, down: true }),
        ]
    );
    assert!(io.mouse_captured);
    let out = io.handle(&key(Key::Escape, true));
    assert_eq!(
        out,
        vec![
            Action::Window(WindowCommand::ReleaseCursor),
            Action::Engine(EngineInput::KeyDown(1001)),
        ]
    );
    assert!(!io.mouse_captured);
}

#[test]
fn left_press_while_captured_only_reaches_the_engine() {
    let mut io = DgIo::new();
    io.handle(&button(MouseButton::Left, true));
    let out = io.handle(&button(MouseButton::Left, true));
    assert_eq!(out, vec![Action::Engine(EngineInput::MouseButton { button: 0, down: true })]);
    assert!(io.mouse_captured);
}

#[test]
fn escape_release_does_not_touch_the_capture() {
    let mut io = DgIo::new();
    io.handle(&button(MouseButton::Left, true));
    let out = io.handle(&key(Key::Escape, false));
    assert_eq!(out, vec![Action::Engine(EngineInput::KeyUp(1001))]);
    assert!(io.mouse_captured);
}

#[test]
fn escape_press_while_uncaptured_still_frees_the_cursor() {
    let mut io = DgIo::new();
    let out = io.handle(&key(Key::Escape, true));
    assert_eq!(
        out,
        vec![
            Action::Window(WindowCommand::ReleaseCursor),
            Action::Engine(EngineInput::KeyDown(DGK_ESCAPE)),
        ]
    );
    assert!(!io.mouse_captured);
}

#[test]
fn buttons_map_to_their_indices() {
    let mut io = DgIo::new();
    io.mouse_captured = true;
    for (b, index) in [
        (MouseButton::Left, BUTTON_LEFT),
        (MouseButton::Right, BUTTON_RIGHT),
        (MouseButton::Middle, BUTTON_MIDDLE),
    ] {
        for down in [true, false] {
            assert_eq!(
                io.handle(&button(b, down)),
                vec![Action::Engine(EngineInput::MouseButton { button: index, down })]
            );
        }
    }
    assert_eq!((BUTTON_LEFT, BUTTON_RIGHT, BUTTON_MIDDLE), (0, 1, 2));
    assert_eq!(io.handle(&button(MouseButton::Other, true)), vec![]);
    assert_eq!(io.handle(&button(MouseButton::Other, false)), vec![]);
}

#[test]
fn only_a_left_press_captures() {
    for (b, pressed) in [
        (MouseButton::Right, true),
        (MouseButton::Middle, true),
        (MouseButton::Other, true),
        (MouseButton::Left, false),
    ] {
        let mut io = DgIo::new();
        let out = io.handle(&button(b, pressed));
        assert!(!io.mouse_captured);
        assert!(!out.contains(&Action::Window(WindowCommand::GrabCursor)));
    }
}

#[test]
fn relative_motion_needs_capture() {
    let mut io = DgIo::new();
    assert_eq!(io.handle(&motion(3.5, -2.0)), vec![]);
    io.handle(&button(MouseButton::Left, true));
    let out = io.handle(&motion(3.5, -2.0));
    assert_eq!(
        out,
        vec![Action::Engine(EngineInput::MouseMoveRel {
            dx: 3.5f32.to_bits(),
            dy: (-2.0f32).to_bits(),
        })]
    );
    match out[0] {
        Action::Engine(EngineInput::MouseMoveRel { dx, dy }) => {
            assert_eq!((f32::from_bits(dx), f32::from_bits(dy)), (3.5, -2.0));
        }
        _ => unreachable!(),
    }
    assert!(io.mouse_captured);
}

#[test]
fn other_device_events_are_dropped() {
    let mut io = DgIo::new();
    io.mouse_captured = true;
    assert_eq!(io.handle(&HostEvent::Device(DeviceEvent::Other)), vec![]);
    assert_eq!(io.handle_device(&DeviceEvent::Other), vec![]);
}

#[test]
fn absolute_motion_is_always_forwarded() {
    let ev = HostEvent::Window(WindowEvent::CursorMoved {
        x: 12.25f32.to_bits(),
        y: 480.0f32.to_bits(),
    });
    let expected = vec![Action::Engine(EngineInput::MouseMoveAbs {
        x: 12.25f32.to_bits(),
        y: 480.0f32.to_bits(),
    })];
    let mut io = DgIo::new();
    assert_eq!(io.handle(&ev), expected);
    io.mouse_captured = true;
    assert_eq!(io.handle(&ev), expected);
}

#[test]
fn wheel_is_forwarded() {
    let mut io = DgIo::new();
    let ev = HostEvent::Window(WindowEvent::MouseWheel { lines: (-1.0f32).to_bits() });
    assert_eq!(
        io.handle(&ev),
        vec![Action::Engine(EngineInput::MouseWheel { lines: (-1.0f32).to_bits() })]
    );
}

#[test]
fn focus_loss_releases_a_captured_mouse() {
    let mut io = DgIo::new();
    io.handle(&button(MouseButton::Left, true));
    let out = io.handle(&HostEvent::Window(WindowEvent::Focused(false)));
    assert_eq!(out, vec![Action::Window(WindowCommand::ReleaseCursor)]);
    assert!(!io.mouse_captured);
    let out = io.handle(&HostEvent::Window(WindowEvent::Focused(false)));
    assert_eq!(out, vec![]);
}

#[test]
fn focus_gain_does_nothing() {
    let mut io = DgIo::new();
    io.mouse_captured = true;
    assert_eq!(io.handle(&HostEvent::Window(WindowEvent::Focused(true))), vec![]);
    assert!(io.mouse_captured);
}

#[test]
fn f11_toggles_fullscreen_once_per_press() {
    let mut io = DgIo::new();
    assert_eq!(
        io.handle(&key(Key::F11, true)),
        vec![Action::Window(WindowCommand::EnterFullscreen)]
    );
    assert!(io.is_fullscreen);
    assert_eq!(io.handle(&key(Key::F11, false)), vec![Action::Engine(EngineInput::KeyUp(0))]);
    assert!(io.is_fullscreen);
    assert_eq!(
        io.handle(&key(Key::F11, true)),
        vec![Action::Window(WindowCommand::LeaveFullscreen)]
    );
    assert!(!io.is_fullscreen);
}

#[test]
fn alt_enter_toggles_fullscreen_and_plain_enter_does_not() {
    let mut io = DgIo::new();
    assert_eq!(
        io.handle(&key(Key::Enter, true)),
        vec![Action::Engine(EngineInput::KeyDown(DGK_ENTER))]
    );
    assert!(!io.is_fullscreen);
    assert_eq!(io.handle(&mods(true, false, false)), vec![]);
    assert!(io.mods.alt);
    assert_eq!(
        io.handle(&key(Key::Enter, true)),
        vec![Action::Window(WindowCommand::EnterFullscreen)]
    );
    assert!(io.is_fullscreen);
    assert_eq!(io.handle(&mods(false, false, false)), vec![]);
    assert_eq!(
        io.handle(&key(Key::Enter, true)),
        vec![Action::Engine(EngineInput::KeyDown(DGK_ENTER))]
    );
    assert!(io.is_fullscreen);
}

#[test]
fn super_control_f_toggles_only_where_enabled() {
    let mut io = DgIo::new();
    io.handle(&mods(false, true, true));
    assert_eq!(io.handle(&key(Key::KeyF, true)), vec![Action::Engine(EngineInput::KeyDown(0))]);
    assert!(!io.is_fullscreen);
    io.super_ctrl_f = true;
    assert_eq!(
        io.handle(&key(Key::KeyF, true)),
        vec![Action::Window(WindowCommand::EnterFullscreen)]
    );
    assert!(io.is_fullscreen);
    io.handle(&mods(false, true, false));
    assert_eq!(io.handle(&key(Key::KeyF, true)), vec![Action::Engine(EngineInput::KeyDown(0))]);
    assert!(io.is_fullscreen);
}

#[test]
fn fullscreen_toggle_keeps_the_capture() {
    let mut io = DgIo::new();
    io.handle(&button(MouseButton::Left, true));
    io.handle(&key(Key::F11, true));
    assert!(io.mouse_captured && io.is_fullscreen);
}

#[test]
fn toggle_and_capture_report_their_commands() {
    let mut io = DgIo::new();
    assert_eq!(io.toggle_fullscreen(), WindowCommand::EnterFullscreen);
    assert_eq!(io.toggle_fullscreen(), WindowCommand::LeaveFullscreen);
    assert_eq!(io.set_mouse_capture(true), WindowCommand::GrabCursor);
    assert!(io.mouse_captured);
    assert_eq!(io.set_mouse_capture(false), WindowCommand::ReleaseCursor);
    assert!(!io.mouse_captured);
}

#[test]
fn other_events_change_nothing() {
    let mut io = DgIo::new();
    io.mouse_captured = true;
    let before = io;
    assert_eq!(io.handle(&HostEvent::Other), vec![]);
    assert_eq!(io.handle(&HostEvent::Window(WindowEvent::Other)), vec![]);
    assert_eq!(io.handle_window(&WindowEvent::Other), vec![]);
    assert_eq!(io, before);
}

#[test]
fn fire_is_shared_by_both_control_keys() {
    let mut io = DgIo::new();
    for k in [Key::ControlLeft, Key::ControlRight] {
        assert_eq!(
            io.handle(&key(k, true)),
            vec![Action::Engine(EngineInput::KeyDown(DGK_FIRE))]
        );
    }
}

#[test]
fn compact_key_codes_count_up_from_one() {
    assert_eq!(
        [
            DG_KEY_UNKNOWN,
            DG_KEY_UP,
            DG_KEY_DOWN,
            DG_KEY_LEFT,
            DG_KEY_RIGHT,
            DG_KEY_W,
            DG_KEY_A,
            DG_KEY_S,
            DG_KEY_D,
            DG_KEY_SPACE,
            DG_KEY_ENTER,
            DG_KEY_ESCAPE,
        ],
        [0, 1, 2, 3, 4, 5, 6, 7, 8, 9, 10, 11]
    );
}
