use rusty_doom::engine::{
    check_boot_frame, check_engine_created, frame_dims, FrameDims, StartupError,
};

#[test]
fn frame_wants_a_buffer_and_positive_sizes() {
    assert_eq!(frame_dims(true, 320, 200), Some(FrameDims { width: 320, height: 200 }));
    assert_eq!(frame_dims(true, 1, 1), Some(FrameDims { width: 1, height: 1 }));
    assert_eq!(
        frame_dims(true, i32::MAX, 1),
        Some(FrameDims { width: i32::MAX as usize, height: 1 })
    );
    assert_eq!(frame_dims(false, 320, 200), None);
    assert_eq!(frame_dims(true, 0, 200), None);
    assert_eq!(frame_dims(true, 320, 0), None);
    assert_eq!(frame_dims(true, -320, 200), None);
    assert_eq!(frame_dims(true, 320, i32::MIN), None);
}

#[test]
fn engine_creation_succeeds_only_with_status_zero() {
    assert_eq!(check_engine_created(0), Ok(()));
    assert_eq!(check_engine_created(1), Err(StartupError::EngineCreate { status: 1 }));
    assert_eq!(check_engine_created(-7), Err(StartupError::EngineCreate { status: -7 }));
    assert_eq!(
        check_engine_created(i32::MIN),
        Err(StartupError::EngineCreate { status: i32::MIN })
    );
}

#[test]
fn boot_needs_a_frame() {
    assert_eq!(check_boot_frame(true, 320, 200), Ok(FrameDims { width: 320, height: 200 }));
    assert_eq!(check_boot_frame(false, 320, 200), Err(StartupError::NoFramebuffer));
    assert_eq!(check_boot_frame(true, 0, 200), Err(StartupError::NoFramebuffer));
    assert_eq!(check_boot_frame(true, 320, -1), Err(StartupError::NoFramebuffer));
}
